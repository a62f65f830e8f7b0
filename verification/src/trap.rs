//! Register-level model of the SBI trap and the executor capability.
//!
//! An SBI call is one trap: the caller places identifying words and argument
//! words into fixed machine registers, executes the trapping instruction, and
//! reads the handler's answer back out of fixed result registers.  The two
//! register blocks below name exactly the registers each calling convention
//! uses; a [`TrapExecutor`] is whatever stands on the other side of the trap.

use vstd::prelude::*;

verus! {

/// The input registers of one modern-convention call: argument words in
/// `a0`..`a2`, the function id in `a6`, the extension id in `a7`.
#[derive(Clone, Copy, Debug, PartialEq, Eq, Structural)]
pub struct ModernRegs {
    /// First argument register.
    pub a0: usize,
    /// Second argument register.
    pub a1: usize,
    /// Third argument register.
    pub a2: usize,
    /// Function id register.
    pub a6: usize,
    /// Extension id register.
    pub a7: usize,
}

/// The input registers of one legacy-convention call: argument words in
/// `a0`..`a2`, the single call number in `a7`.  The legacy convention does
/// not touch `a6`.
#[derive(Clone, Copy, Debug, PartialEq, Eq, Structural)]
pub struct LegacyRegs {
    /// First argument register.
    pub a0: usize,
    /// Second argument register.
    pub a1: usize,
    /// Third argument register.
    pub a2: usize,
    /// Call number register.
    pub a7: usize,
}

/// The result registers a modern-convention handler writes before returning:
/// `a0` carries the error word, `a1` the value word.
#[derive(Clone, Copy, Debug, PartialEq, Eq, Structural)]
pub struct RetRegs {
    /// First result register (the error word).
    pub a0: usize,
    /// Second result register (the value word).
    pub a1: usize,
}

/// The register block a modern-convention call hands to the handler, from the
/// extension id, the function id and the three argument registers.
pub open spec fn modern_regs(
    extension: usize,
    function: usize,
    arg0: usize,
    arg1: usize,
    arg2: usize,
) -> ModernRegs {
    ModernRegs { a0: arg0, a1: arg1, a2: arg2, a6: function, a7: extension }
}

/// The register block a legacy-convention call hands to the handler, from the
/// call number and the three argument registers.
pub open spec fn legacy_regs(which: usize, arg0: usize, arg1: usize, arg2: usize) -> LegacyRegs {
    LegacyRegs { a0: arg0, a1: arg1, a2: arg2, a7: which }
}

/// The capability to execute one trap per calling convention.
///
/// The handler behind the trap is outside this layer's control: what it
/// answers and what it does to its own state are given only by the two spec
/// functions of the implementing type.  A target supplies an implementation
/// that issues the real trapping instruction; a test harness supplies a
/// scripted one.  Either way, each trap returns exactly the words the
/// handler placed in the result registers, untransformed.
pub trait TrapExecutor: Sized {
    /// The result registers the handler answers a modern call with, given the
    /// executor's state and the input registers.
    spec fn modern_response(&self, regs: ModernRegs) -> RetRegs;

    /// The executor's state after one modern call with the given registers.
    spec fn modern_post(&self, regs: ModernRegs) -> Self;

    /// The single result word the handler answers a legacy call with, given
    /// the executor's state and the input registers.
    spec fn legacy_response(&self, regs: LegacyRegs) -> usize;

    /// The executor's state after one legacy call with the given registers.
    spec fn legacy_post(&self, regs: LegacyRegs) -> Self;

    /// Executes one modern-convention trap with exactly the given input
    /// registers and returns exactly the handler's two result registers.
    fn trap_modern(&mut self, regs: ModernRegs) -> (ret: RetRegs)
        ensures
            ret == old(self).modern_response(regs),
            *final(self) == old(self).modern_post(regs),
    ;

    /// Executes one legacy-convention trap with exactly the given input
    /// registers and returns exactly the handler's first result register.
    fn trap_legacy(&mut self, regs: LegacyRegs) -> (ret: usize)
        ensures
            ret == old(self).legacy_response(regs),
            *final(self) == old(self).legacy_post(regs),
    ;
}

} // verus!
