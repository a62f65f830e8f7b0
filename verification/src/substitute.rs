//! A scripted trap executor standing in for firmware, and the pass-through
//! laws of the calling layer stated over it.
//!
//! The real handler sits behind privileged hardware, so exercising the layer
//! takes a substitute that implements the documented register contract: it
//! answers every call with words it was configured with, and records the
//! exact register block it received.  Because both sides of such an executor
//! are pinned down, the laws at the bottom of this module state — and Verus
//! proves — that the whole layer is a pure pass-through in both directions.

use vstd::prelude::*;

use crate::trap::legacy_regs;
use crate::trap::modern_regs;
use crate::trap::LegacyRegs;
use crate::trap::ModernRegs;
use crate::trap::RetRegs;
use crate::trap::TrapExecutor;

verus! {

/// A substitute trap handler with a fixed script: it places `reply_error` and
/// `reply_value` in the two result registers of every modern call,
/// `reply_legacy` in the result register of every legacy call, and keeps the
/// last register block it was handed on each convention.
#[derive(Clone, Copy, Debug, PartialEq, Eq)]
pub struct ScriptedExecutor {
    /// Word the handler places in the first result register of a modern call.
    pub reply_error: usize,
    /// Word the handler places in the second result register of a modern call.
    pub reply_value: usize,
    /// Word the handler places in the result register of a legacy call.
    pub reply_legacy: usize,
    /// The input registers of the last modern call received, if any.
    pub seen_modern: Option<ModernRegs>,
    /// The input registers of the last legacy call received, if any.
    pub seen_legacy: Option<LegacyRegs>,
}

impl ScriptedExecutor {
    /// A fresh substitute handler scripted to answer modern calls with
    /// `(reply_error, reply_value)` and legacy calls with `reply_legacy`,
    /// having received nothing yet.
    pub fn new(reply_error: usize, reply_value: usize, reply_legacy: usize) -> (fw: Self)
        ensures
            fw.reply_error == reply_error,
            fw.reply_value == reply_value,
            fw.reply_legacy == reply_legacy,
            fw.seen_modern is None,
            fw.seen_legacy is None,
    {
        ScriptedExecutor {
            reply_error,
            reply_value,
            reply_legacy,
            seen_modern: None,
            seen_legacy: None,
        }
    }
}

impl TrapExecutor for ScriptedExecutor {
    open spec fn modern_response(&self, regs: ModernRegs) -> RetRegs {
        RetRegs { a0: self.reply_error, a1: self.reply_value }
    }

    open spec fn modern_post(&self, regs: ModernRegs) -> Self {
        ScriptedExecutor {
            reply_error: self.reply_error,
            reply_value: self.reply_value,
            reply_legacy: self.reply_legacy,
            seen_modern: Some(regs),
            seen_legacy: self.seen_legacy,
        }
    }

    open spec fn legacy_response(&self, regs: LegacyRegs) -> usize {
        self.reply_legacy
    }

    open spec fn legacy_post(&self, regs: LegacyRegs) -> Self {
        ScriptedExecutor {
            reply_error: self.reply_error,
            reply_value: self.reply_value,
            reply_legacy: self.reply_legacy,
            seen_modern: self.seen_modern,
            seen_legacy: Some(regs),
        }
    }

    fn trap_modern(&mut self, regs: ModernRegs) -> (ret: RetRegs) {
        self.seen_modern = Some(regs);
        RetRegs { a0: self.reply_error, a1: self.reply_value }
    }

    fn trap_legacy(&mut self, regs: LegacyRegs) -> (ret: usize) {
        self.seen_legacy = Some(regs);
        self.reply_legacy
    }
}

/// Register assignment law, modern convention: a call built from an extension
/// id, a function id and up to three argument words reaches the handler with
/// the arguments in the first argument registers in order, the function id in
/// the next register, and the extension id in the register after that — for
/// every arity, since an omitted argument is the word zero.
pub proof fn lemma_modern_register_assignment(
    extension: usize,
    function: usize,
    arg0: usize,
    arg1: usize,
    arg2: usize,
)
    ensures
        modern_regs(extension, function, arg0, arg1, arg2).a0 == arg0,
        modern_regs(extension, function, arg0, arg1, arg2).a1 == arg1,
        modern_regs(extension, function, arg0, arg1, arg2).a2 == arg2,
        modern_regs(extension, function, arg0, arg1, arg2).a6 == function,
        modern_regs(extension, function, arg0, arg1, arg2).a7 == extension,
{
}

/// Register assignment law, legacy convention: a call built from a call
/// number and up to three argument words reaches the handler with the
/// arguments in the same first argument registers as the modern convention,
/// and the call number in the register that names the system call.
pub proof fn lemma_legacy_register_assignment(
    which: usize,
    arg0: usize,
    arg1: usize,
    arg2: usize,
)
    ensures
        legacy_regs(which, arg0, arg1, arg2).a0 == arg0,
        legacy_regs(which, arg0, arg1, arg2).a1 == arg1,
        legacy_regs(which, arg0, arg1, arg2).a2 == arg2,
        legacy_regs(which, arg0, arg1, arg2).a7 == which,
{
}

/// Round-trip law, modern convention: on a scripted handler, one modern call
/// with any identifying words and any argument tuple answers exactly the
/// scripted `(error, value)` pair — first result register to `error`, second
/// to `value` — and leaves the handler having observed exactly the register
/// block of that call, its script unchanged.  Together with the contracts of
/// the arity helpers, the layer transforms nothing in either direction.
pub proof fn lemma_modern_round_trip(
    fw: ScriptedExecutor,
    extension: usize,
    function: usize,
    arg0: usize,
    arg1: usize,
    arg2: usize,
)
    ensures
        fw.modern_response(modern_regs(extension, function, arg0, arg1, arg2)).a0
            == fw.reply_error,
        fw.modern_response(modern_regs(extension, function, arg0, arg1, arg2)).a1
            == fw.reply_value,
        fw.modern_post(modern_regs(extension, function, arg0, arg1, arg2)).seen_modern
            == Some(modern_regs(extension, function, arg0, arg1, arg2)),
        fw.modern_post(modern_regs(extension, function, arg0, arg1, arg2)).reply_error
            == fw.reply_error,
        fw.modern_post(modern_regs(extension, function, arg0, arg1, arg2)).reply_value
            == fw.reply_value,
        fw.modern_post(modern_regs(extension, function, arg0, arg1, arg2)).reply_legacy
            == fw.reply_legacy,
        fw.modern_post(modern_regs(extension, function, arg0, arg1, arg2)).seen_legacy
            == fw.seen_legacy,
{
}

/// Round-trip law, legacy convention: on a scripted handler, one legacy call
/// with any call number and any argument tuple answers exactly the scripted
/// raw word, and leaves the handler having observed exactly the register
/// block of that call, its script unchanged.
pub proof fn lemma_legacy_round_trip(
    fw: ScriptedExecutor,
    which: usize,
    arg0: usize,
    arg1: usize,
    arg2: usize,
)
    ensures
        fw.legacy_response(legacy_regs(which, arg0, arg1, arg2)) == fw.reply_legacy,
        fw.legacy_post(legacy_regs(which, arg0, arg1, arg2)).seen_legacy
            == Some(legacy_regs(which, arg0, arg1, arg2)),
        fw.legacy_post(legacy_regs(which, arg0, arg1, arg2)).reply_error == fw.reply_error,
        fw.legacy_post(legacy_regs(which, arg0, arg1, arg2)).reply_value == fw.reply_value,
        fw.legacy_post(legacy_regs(which, arg0, arg1, arg2)).reply_legacy == fw.reply_legacy,
        fw.legacy_post(legacy_regs(which, arg0, arg1, arg2)).seen_modern == fw.seen_modern,
{
}

} // verus!
