//! Arity-specialized call helpers for the two SBI calling conventions.
//!
//! Each helper adapts the trap primitive to a fixed argument count: it places
//! the supplied argument words in the first argument registers in order,
//! zeroes the unused ones, places the identifying word(s) in the id
//! registers, issues one trap, and maps the result registers into the call
//! result — the first result register to `error`, the second to `value` for
//! the modern convention, and the first result register alone for the legacy
//! convention.  Nothing is interpreted, validated or retried on either path.

use vstd::prelude::*;

use crate::trap::legacy_regs;
use crate::trap::modern_regs;
use crate::trap::LegacyRegs;
use crate::trap::ModernRegs;
use crate::trap::TrapExecutor;

verus! {

/// The two-word result of one modern-convention SBI call, exactly as the
/// handler left it: the meaning of both words belongs to the SBI
/// specification of the extension called, and this layer only transports
/// them.
#[derive(Clone, Copy, Debug, PartialEq, Eq, Structural)]
pub struct SbiRet {
    /// Error number
    pub error: usize,
    /// Result value
    pub value: usize,
}

/// Issues one modern-convention call with no arguments: the function id goes
/// to `a6`, the extension id to `a7`, the argument registers are zeroed, and
/// the handler's `(a0, a1)` come back as `(error, value)`.
pub fn sbi_call_0<E: TrapExecutor>(fw: &mut E, extension: usize, function: usize) -> (r: SbiRet)
    ensures
        r.error == old(fw).modern_response(modern_regs(extension, function, 0, 0, 0)).a0,
        r.value == old(fw).modern_response(modern_regs(extension, function, 0, 0, 0)).a1,
        *final(fw) == old(fw).modern_post(modern_regs(extension, function, 0, 0, 0)),
{
    let regs = ModernRegs { a0: 0, a1: 0, a2: 0, a6: function, a7: extension };
    let out = fw.trap_modern(regs);
    SbiRet { error: out.a0, value: out.a1 }
}

/// Issues one modern-convention call with one argument in `a0`; otherwise as
/// [`sbi_call_0`].
pub fn sbi_call_1<E: TrapExecutor>(
    fw: &mut E,
    extension: usize,
    function: usize,
    arg0: usize,
) -> (r: SbiRet)
    ensures
        r.error == old(fw).modern_response(modern_regs(extension, function, arg0, 0, 0)).a0,
        r.value == old(fw).modern_response(modern_regs(extension, function, arg0, 0, 0)).a1,
        *final(fw) == old(fw).modern_post(modern_regs(extension, function, arg0, 0, 0)),
{
    let regs = ModernRegs { a0: arg0, a1: 0, a2: 0, a6: function, a7: extension };
    let out = fw.trap_modern(regs);
    SbiRet { error: out.a0, value: out.a1 }
}

/// Issues one modern-convention call with two arguments in `a0`, `a1`;
/// otherwise as [`sbi_call_0`].
pub fn sbi_call_2<E: TrapExecutor>(
    fw: &mut E,
    extension: usize,
    function: usize,
    arg0: usize,
    arg1: usize,
) -> (r: SbiRet)
    ensures
        r.error == old(fw).modern_response(modern_regs(extension, function, arg0, arg1, 0)).a0,
        r.value == old(fw).modern_response(modern_regs(extension, function, arg0, arg1, 0)).a1,
        *final(fw) == old(fw).modern_post(modern_regs(extension, function, arg0, arg1, 0)),
{
    let regs = ModernRegs { a0: arg0, a1: arg1, a2: 0, a6: function, a7: extension };
    let out = fw.trap_modern(regs);
    SbiRet { error: out.a0, value: out.a1 }
}

/// Issues one modern-convention call with three arguments in `a0`..`a2`;
/// otherwise as [`sbi_call_0`].
pub fn sbi_call_3<E: TrapExecutor>(
    fw: &mut E,
    extension: usize,
    function: usize,
    arg0: usize,
    arg1: usize,
    arg2: usize,
) -> (r: SbiRet)
    ensures
        r.error == old(fw).modern_response(modern_regs(extension, function, arg0, arg1, arg2)).a0,
        r.value == old(fw).modern_response(modern_regs(extension, function, arg0, arg1, arg2)).a1,
        *final(fw) == old(fw).modern_post(modern_regs(extension, function, arg0, arg1, arg2)),
{
    let regs = ModernRegs { a0: arg0, a1: arg1, a2: arg2, a6: function, a7: extension };
    let out = fw.trap_modern(regs);
    SbiRet { error: out.a0, value: out.a1 }
}

/// Issues one legacy-convention call: the call number goes to `a7`, the three
/// argument words to `a0`..`a2`, and the single word the handler left in the
/// first result register comes back raw — the legacy convention has no
/// separate error channel, and any sentinel convention inside the word is the
/// caller's to apply.
pub fn sbi_call_legacy<E: TrapExecutor>(
    fw: &mut E,
    which: usize,
    arg0: usize,
    arg1: usize,
    arg2: usize,
) -> (r: usize)
    ensures
        r == old(fw).legacy_response(legacy_regs(which, arg0, arg1, arg2)),
        *final(fw) == old(fw).legacy_post(legacy_regs(which, arg0, arg1, arg2)),
{
    let regs = LegacyRegs { a0: arg0, a1: arg1, a2: arg2, a7: which };
    fw.trap_legacy(regs)
}

} // verus!
