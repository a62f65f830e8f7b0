//! Named service wrappers and the constant tables behind them.
//!
//! Every extension id, function id and legacy call number below mirrors the
//! published SBI specification bit-for-bit; none is a choice of this crate.
//! Each wrapper selects the right convention, ids and argument count, issues
//! exactly one call, and hands the handler's answer back untransformed: a
//! `value` word, a full [`SbiRet`] pair, or a raw legacy word.

use vstd::prelude::*;

use crate::calls::sbi_call_0;
use crate::calls::sbi_call_1;
use crate::calls::sbi_call_2;
use crate::calls::sbi_call_3;
use crate::calls::sbi_call_legacy;
use crate::calls::SbiRet;
use crate::trap::legacy_regs;
use crate::trap::modern_regs;
use crate::trap::TrapExecutor;

verus! {

/// Base extension id.
pub const EXTENSION_BASE: usize = 0x10;

/// Timer extension id.
pub const EXTENSION_TIMER: usize = 0x54494D45;

/// Inter-processor interrupt extension id.
pub const EXTENSION_IPI: usize = 0x735049;

/// Remote fence extension id.
pub const EXTENSION_RFENCE: usize = 0x52464E43;

/// Hart state management extension id.
pub const EXTENSION_HSM: usize = 0x48534D;

/// System reset extension id.
pub const EXTENSION_SRST: usize = 0x53525354;

/// Function id of "get SBI specification version" in the base extension.
pub const FUNCTION_BASE_GET_SPEC_VERSION: usize = 0x0;

/// Function id of "get SBI implementation id" in the base extension.
pub const FUNCTION_BASE_GET_SBI_IMPL_ID: usize = 0x1;

/// Function id of "get SBI implementation version" in the base extension.
pub const FUNCTION_BASE_GET_SBI_IMPL_VERSION: usize = 0x2;

/// Function id of "probe extension" in the base extension.
pub const FUNCTION_BASE_PROBE_EXTENSION: usize = 0x3;

/// Function id of "get machine vendor id" in the base extension.
pub const FUNCTION_BASE_GET_MVENDORID: usize = 0x4;

/// Function id of "get machine architecture id" in the base extension.
pub const FUNCTION_BASE_GET_MARCHID: usize = 0x5;

/// Function id of "get machine implementation id" in the base extension.
pub const FUNCTION_BASE_GET_MIMPID: usize = 0x6;

/// Legacy call number of "set timer".
pub const SBI_SET_TIMER: usize = 0;

/// Legacy call number of "console put character".
pub const SBI_CONSOLE_PUTCHAR: usize = 1;

/// Legacy call number of "console get character".
pub const SBI_CONSOLE_GETCHAR: usize = 2;

/// Legacy call number of "clear inter-processor interrupt".
pub const SBI_CLEAR_IPI: usize = 3;

/// Legacy call number of "send inter-processor interrupt".
pub const SBI_SEND_IPI: usize = 4;

/// Legacy call number of "remote instruction fence".
pub const SBI_REMOTE_FENCE_I: usize = 5;

/// Legacy call number of "remote address-space fence".
pub const SBI_REMOTE_SFENCE_VMA: usize = 6;

/// Legacy call number of "remote address-space fence by id".
pub const SBI_REMOTE_SFENCE_VMA_ASID: usize = 7;

/// Legacy call number of "shutdown".
pub const SBI_SHUTDOWN: usize = 8;

/// Function id of "send inter-processor interrupt" in the IPI extension.
pub const FUNCTION_IPI_SEND_IPI: usize = 0x0;

/// Function id of "hart start" in the hart state management extension.
pub const FUNCTION_HSM_HART_START: usize = 0x0;

/// Function id of "hart stop" in the hart state management extension.
pub const FUNCTION_HSM_HART_STOP: usize = 0x1;

/// Function id of "hart get status" in the hart state management extension.
pub const FUNCTION_HSM_HART_GET_STATUS: usize = 0x2;

/// Function id of "hart suspend" in the hart state management extension.
pub const FUNCTION_HSM_HART_SUSPEND: usize = 0x3;

/// Asks the base extension for the SBI specification version and returns the
/// handler's value word.
pub fn get_spec_version<E: TrapExecutor>(fw: &mut E) -> (r: usize)
    ensures
        r == old(fw).modern_response(
            modern_regs(EXTENSION_BASE, FUNCTION_BASE_GET_SPEC_VERSION, 0, 0, 0),
        ).a1,
        *final(fw) == old(fw).modern_post(
            modern_regs(EXTENSION_BASE, FUNCTION_BASE_GET_SPEC_VERSION, 0, 0, 0),
        ),
{
    sbi_call_0(fw, EXTENSION_BASE, FUNCTION_BASE_GET_SPEC_VERSION).value
}

/// Asks the base extension for the SBI implementation id and returns the
/// handler's value word.
pub fn get_sbi_impl_id<E: TrapExecutor>(fw: &mut E) -> (r: usize)
    ensures
        r == old(fw).modern_response(
            modern_regs(EXTENSION_BASE, FUNCTION_BASE_GET_SBI_IMPL_ID, 0, 0, 0),
        ).a1,
        *final(fw) == old(fw).modern_post(
            modern_regs(EXTENSION_BASE, FUNCTION_BASE_GET_SBI_IMPL_ID, 0, 0, 0),
        ),
{
    sbi_call_0(fw, EXTENSION_BASE, FUNCTION_BASE_GET_SBI_IMPL_ID).value
}

/// Asks the base extension for the SBI implementation version and returns the
/// handler's value word.
pub fn get_sbi_impl_version<E: TrapExecutor>(fw: &mut E) -> (r: usize)
    ensures
        r == old(fw).modern_response(
            modern_regs(EXTENSION_BASE, FUNCTION_BASE_GET_SBI_IMPL_VERSION, 0, 0, 0),
        ).a1,
        *final(fw) == old(fw).modern_post(
            modern_regs(EXTENSION_BASE, FUNCTION_BASE_GET_SBI_IMPL_VERSION, 0, 0, 0),
        ),
{
    sbi_call_0(fw, EXTENSION_BASE, FUNCTION_BASE_GET_SBI_IMPL_VERSION).value
}

/// Probes whether the firmware supports the given extension id and returns
/// the handler's value word exactly as reported — a sentinel or error code in
/// it is neither reinterpreted nor hidden.
pub fn probe_extension<E: TrapExecutor>(fw: &mut E, extension_id: usize) -> (r: usize)
    ensures
        r == old(fw).modern_response(
            modern_regs(EXTENSION_BASE, FUNCTION_BASE_PROBE_EXTENSION, extension_id, 0, 0),
        ).a1,
        *final(fw) == old(fw).modern_post(
            modern_regs(EXTENSION_BASE, FUNCTION_BASE_PROBE_EXTENSION, extension_id, 0, 0),
        ),
{
    sbi_call_1(fw, EXTENSION_BASE, FUNCTION_BASE_PROBE_EXTENSION, extension_id).value
}

/// Asks the base extension for the machine vendor id and returns the
/// handler's value word.
pub fn get_mvendorid<E: TrapExecutor>(fw: &mut E) -> (r: usize)
    ensures
        r == old(fw).modern_response(
            modern_regs(EXTENSION_BASE, FUNCTION_BASE_GET_MVENDORID, 0, 0, 0),
        ).a1,
        *final(fw) == old(fw).modern_post(
            modern_regs(EXTENSION_BASE, FUNCTION_BASE_GET_MVENDORID, 0, 0, 0),
        ),
{
    sbi_call_0(fw, EXTENSION_BASE, FUNCTION_BASE_GET_MVENDORID).value
}

/// Asks the base extension for the machine architecture id and returns the
/// handler's value word.
pub fn get_marchid<E: TrapExecutor>(fw: &mut E) -> (r: usize)
    ensures
        r == old(fw).modern_response(
            modern_regs(EXTENSION_BASE, FUNCTION_BASE_GET_MARCHID, 0, 0, 0),
        ).a1,
        *final(fw) == old(fw).modern_post(
            modern_regs(EXTENSION_BASE, FUNCTION_BASE_GET_MARCHID, 0, 0, 0),
        ),
{
    sbi_call_0(fw, EXTENSION_BASE, FUNCTION_BASE_GET_MARCHID).value
}

/// Asks the base extension for the machine implementation id and returns the
/// handler's value word.
pub fn get_mimpid<E: TrapExecutor>(fw: &mut E) -> (r: usize)
    ensures
        r == old(fw).modern_response(
            modern_regs(EXTENSION_BASE, FUNCTION_BASE_GET_MIMPID, 0, 0, 0),
        ).a1,
        *final(fw) == old(fw).modern_post(
            modern_regs(EXTENSION_BASE, FUNCTION_BASE_GET_MIMPID, 0, 0, 0),
        ),
{
    sbi_call_0(fw, EXTENSION_BASE, FUNCTION_BASE_GET_MIMPID).value
}

/// Writes one character to the platform console through the legacy
/// convention; the legacy word the handler answers with is discarded, as the
/// operation defines no result.
pub fn console_putchar<E: TrapExecutor>(fw: &mut E, c: usize)
    ensures
        *final(fw) == old(fw).legacy_post(legacy_regs(SBI_CONSOLE_PUTCHAR, c, 0, 0)),
{
    sbi_call_legacy(fw, SBI_CONSOLE_PUTCHAR, c, 0, 0);
}

/// Reads one character from the platform console through the legacy
/// convention and returns the raw legacy word: by convention a sentinel in it
/// means "no character", and applying that convention is the caller's part.
pub fn console_getchar<E: TrapExecutor>(fw: &mut E) -> (r: usize)
    ensures
        r == old(fw).legacy_response(legacy_regs(SBI_CONSOLE_GETCHAR, 0, 0, 0)),
        *final(fw) == old(fw).legacy_post(legacy_regs(SBI_CONSOLE_GETCHAR, 0, 0, 0)),
{
    sbi_call_legacy(fw, SBI_CONSOLE_GETCHAR, 0, 0, 0)
}

/// Asks the firmware to shut the system down through the legacy convention.
///
/// On success the handler never returns control, so this function never
/// returns either.  A handler that does return has broken the operation's
/// contract: the raw word it answered with comes back as `fault`, and a
/// caller must treat reaching it as an unrecoverable error, never as a
/// result.
pub fn shutdown<E: TrapExecutor>(fw: &mut E) -> (fault: usize)
    ensures
        fault == old(fw).legacy_response(legacy_regs(SBI_SHUTDOWN, 0, 0, 0)),
        *final(fw) == old(fw).legacy_post(legacy_regs(SBI_SHUTDOWN, 0, 0, 0)),
{
    sbi_call_legacy(fw, SBI_SHUTDOWN, 0, 0, 0)
}

/// Programs the next timer event through the legacy convention; the legacy
/// word the handler answers with is discarded, as the operation defines no
/// result.
pub fn set_timer<E: TrapExecutor>(fw: &mut E, time: usize)
    ensures
        *final(fw) == old(fw).legacy_post(legacy_regs(SBI_SET_TIMER, time, 0, 0)),
{
    sbi_call_legacy(fw, SBI_SET_TIMER, time, 0, 0);
}

/// Sends an inter-processor interrupt to the harts selected by the mask and
/// its base, and returns the handler's `(error, value)` pair untouched.
pub fn send_ipi<E: TrapExecutor>(fw: &mut E, hart_mask: usize, hart_mask_base: usize) -> (r: SbiRet)
    ensures
        r.error == old(fw).modern_response(
            modern_regs(EXTENSION_IPI, FUNCTION_IPI_SEND_IPI, hart_mask, hart_mask_base, 0),
        ).a0,
        r.value == old(fw).modern_response(
            modern_regs(EXTENSION_IPI, FUNCTION_IPI_SEND_IPI, hart_mask, hart_mask_base, 0),
        ).a1,
        *final(fw) == old(fw).modern_post(
            modern_regs(EXTENSION_IPI, FUNCTION_IPI_SEND_IPI, hart_mask, hart_mask_base, 0),
        ),
{
    sbi_call_2(fw, EXTENSION_IPI, FUNCTION_IPI_SEND_IPI, hart_mask, hart_mask_base)
}

/// Asks the firmware to start the given hart at the given entry address,
/// passing the opaque word through to it unmodified, and returns the
/// handler's `(error, value)` pair untouched.
pub fn hart_start<E: TrapExecutor>(
    fw: &mut E,
    hartid: usize,
    start_addr: usize,
    opaque: usize,
) -> (r: SbiRet)
    ensures
        r.error == old(fw).modern_response(
            modern_regs(EXTENSION_HSM, FUNCTION_HSM_HART_START, hartid, start_addr, opaque),
        ).a0,
        r.value == old(fw).modern_response(
            modern_regs(EXTENSION_HSM, FUNCTION_HSM_HART_START, hartid, start_addr, opaque),
        ).a1,
        *final(fw) == old(fw).modern_post(
            modern_regs(EXTENSION_HSM, FUNCTION_HSM_HART_START, hartid, start_addr, opaque),
        ),
{
    sbi_call_3(fw, EXTENSION_HSM, FUNCTION_HSM_HART_START, hartid, start_addr, opaque)
}

/// Asks the firmware to stop the given hart and returns the handler's
/// `(error, value)` pair untouched.
pub fn hart_stop<E: TrapExecutor>(fw: &mut E, hartid: usize) -> (r: SbiRet)
    ensures
        r.error == old(fw).modern_response(
            modern_regs(EXTENSION_HSM, FUNCTION_HSM_HART_STOP, hartid, 0, 0),
        ).a0,
        r.value == old(fw).modern_response(
            modern_regs(EXTENSION_HSM, FUNCTION_HSM_HART_STOP, hartid, 0, 0),
        ).a1,
        *final(fw) == old(fw).modern_post(
            modern_regs(EXTENSION_HSM, FUNCTION_HSM_HART_STOP, hartid, 0, 0),
        ),
{
    sbi_call_1(fw, EXTENSION_HSM, FUNCTION_HSM_HART_STOP, hartid)
}

/// Asks the firmware for the given hart's state and returns the handler's
/// `(error, value)` pair untouched.
pub fn hart_get_status<E: TrapExecutor>(fw: &mut E, hartid: usize) -> (r: SbiRet)
    ensures
        r.error == old(fw).modern_response(
            modern_regs(EXTENSION_HSM, FUNCTION_HSM_HART_GET_STATUS, hartid, 0, 0),
        ).a0,
        r.value == old(fw).modern_response(
            modern_regs(EXTENSION_HSM, FUNCTION_HSM_HART_GET_STATUS, hartid, 0, 0),
        ).a1,
        *final(fw) == old(fw).modern_post(
            modern_regs(EXTENSION_HSM, FUNCTION_HSM_HART_GET_STATUS, hartid, 0, 0),
        ),
{
    sbi_call_1(fw, EXTENSION_HSM, FUNCTION_HSM_HART_GET_STATUS, hartid)
}

/// Asks the firmware to suspend the calling hart with the given suspend type,
/// resume address and opaque word, and returns the handler's `(error, value)`
/// pair untouched.  The call may block inside firmware until it decides to
/// resume the hart; that wait is the operation, not a fault.
pub fn hart_suspend<E: TrapExecutor>(
    fw: &mut E,
    suspend_type: u32,
    resume_addr: usize,
    opaque: usize,
) -> (r: SbiRet)
    ensures
        r.error == old(fw).modern_response(
            modern_regs(
                EXTENSION_HSM,
                FUNCTION_HSM_HART_SUSPEND,
                suspend_type as usize,
                resume_addr,
                opaque,
            ),
        ).a0,
        r.value == old(fw).modern_response(
            modern_regs(
                EXTENSION_HSM,
                FUNCTION_HSM_HART_SUSPEND,
                suspend_type as usize,
                resume_addr,
                opaque,
            ),
        ).a1,
        *final(fw) == old(fw).modern_post(
            modern_regs(
                EXTENSION_HSM,
                FUNCTION_HSM_HART_SUSPEND,
                suspend_type as usize,
                resume_addr,
                opaque,
            ),
        ),
{
    sbi_call_3(
        fw,
        EXTENSION_HSM,
        FUNCTION_HSM_HART_SUSPEND,
        suspend_type as usize,
        resume_addr,
        opaque,
    )
}

} // verus!
