//! Every modern-convention wrapper against a scripted handler: the handler
//! must see the documented extension id, function id and arguments in their
//! registers, and the wrapper must hand the handler's answer back untouched.

use sbi_call::calls::sbi_call_0;
use sbi_call::calls::sbi_call_1;
use sbi_call::calls::sbi_call_2;
use sbi_call::calls::sbi_call_3;
use sbi_call::services::get_marchid;
use sbi_call::services::get_mimpid;
use sbi_call::services::get_mvendorid;
use sbi_call::services::get_sbi_impl_id;
use sbi_call::services::get_sbi_impl_version;
use sbi_call::services::get_spec_version;
use sbi_call::services::hart_get_status;
use sbi_call::services::hart_start;
use sbi_call::services::hart_stop;
use sbi_call::services::hart_suspend;
use sbi_call::services::probe_extension;
use sbi_call::services::send_ipi;
use sbi_call::substitute::ScriptedExecutor;
use sbi_call::trap::ModernRegs;

#[test]
fn spec_version_returns_value_word() {
    let mut fw = ScriptedExecutor::new(0, 0x0100_0005, 0);
    let v = get_spec_version(&mut fw);
    assert_eq!(v, 0x0100_0005);
    assert_eq!(
        fw.seen_modern,
        Some(ModernRegs { a0: 0, a1: 0, a2: 0, a6: 0x0, a7: 0x10 })
    );
    assert_eq!(fw.seen_legacy, None);
}

#[test]
fn sbi_impl_id_uses_function_one() {
    let mut fw = ScriptedExecutor::new(0, 4, 0);
    let v = get_sbi_impl_id(&mut fw);
    assert_eq!(v, 4);
    assert_eq!(
        fw.seen_modern,
        Some(ModernRegs { a0: 0, a1: 0, a2: 0, a6: 0x1, a7: 0x10 })
    );
}

#[test]
fn sbi_impl_version_uses_function_two() {
    let mut fw = ScriptedExecutor::new(0, 0x2_0004, 0);
    let v = get_sbi_impl_version(&mut fw);
    assert_eq!(v, 0x2_0004);
    assert_eq!(
        fw.seen_modern,
        Some(ModernRegs { a0: 0, a1: 0, a2: 0, a6: 0x2, a7: 0x10 })
    );
}

#[test]
fn mvendorid_uses_function_four() {
    let mut fw = ScriptedExecutor::new(0, 0x489, 0);
    let v = get_mvendorid(&mut fw);
    assert_eq!(v, 0x489);
    assert_eq!(
        fw.seen_modern,
        Some(ModernRegs { a0: 0, a1: 0, a2: 0, a6: 0x4, a7: 0x10 })
    );
}

#[test]
fn marchid_uses_function_five() {
    let mut fw = ScriptedExecutor::new(0, 21, 0);
    let v = get_marchid(&mut fw);
    assert_eq!(v, 21);
    assert_eq!(
        fw.seen_modern,
        Some(ModernRegs { a0: 0, a1: 0, a2: 0, a6: 0x5, a7: 0x10 })
    );
}

#[test]
fn mimpid_uses_function_six() {
    let mut fw = ScriptedExecutor::new(0, 9, 0);
    let v = get_mimpid(&mut fw);
    assert_eq!(v, 9);
    assert_eq!(
        fw.seen_modern,
        Some(ModernRegs { a0: 0, a1: 0, a2: 0, a6: 0x6, a7: 0x10 })
    );
}

#[test]
fn probe_passes_the_extension_id_in_the_first_argument_register() {
    let mut fw = ScriptedExecutor::new(0, 1, 0);
    let v = probe_extension(&mut fw, 0x54494D45);
    assert_eq!(v, 1);
    assert_eq!(
        fw.seen_modern,
        Some(ModernRegs { a0: 0x54494D45, a1: 0, a2: 0, a6: 0x3, a7: 0x10 })
    );
}

#[test]
fn probe_returns_an_unsupported_answer_unmodified() {
    // A handler reporting "unsupported" with a sentinel value word and a
    // nonzero error word must reach the caller bit-for-bit.
    let mut fw = ScriptedExecutor::new(usize::MAX - 1, 0, 0);
    let v = probe_extension(&mut fw, 0x0A000000);
    assert_eq!(v, 0);

    let mut fw2 = ScriptedExecutor::new(0, usize::MAX, 0);
    let v2 = probe_extension(&mut fw2, 0x0A000000);
    assert_eq!(v2, usize::MAX);
}

#[test]
fn send_ipi_returns_the_full_pair_in_order() {
    let mut fw = ScriptedExecutor::new(3, 17, 0);
    let r = send_ipi(&mut fw, 0b1010, 4);
    assert_eq!(r.error, 3);
    assert_eq!(r.value, 17);
    assert_eq!(
        fw.seen_modern,
        Some(ModernRegs { a0: 0b1010, a1: 4, a2: 0, a6: 0x0, a7: 0x735049 })
    );
}

#[test]
fn hart_start_marshals_three_arguments_in_order() {
    let mut fw = ScriptedExecutor::new(0, 0, 0);
    let r = hart_start(&mut fw, 3, 0x8020_0000, 0xABCD);
    assert_eq!(r.error, 0);
    assert_eq!(r.value, 0);
    assert_eq!(
        fw.seen_modern,
        Some(ModernRegs { a0: 3, a1: 0x8020_0000, a2: 0xABCD, a6: 0x0, a7: 0x48534D })
    );
}

#[test]
fn hart_stop_uses_function_one_of_hsm() {
    let mut fw = ScriptedExecutor::new(2, 0, 0);
    let r = hart_stop(&mut fw, 5);
    assert_eq!(r.error, 2);
    assert_eq!(r.value, 0);
    assert_eq!(
        fw.seen_modern,
        Some(ModernRegs { a0: 5, a1: 0, a2: 0, a6: 0x1, a7: 0x48534D })
    );
}

#[test]
fn hart_get_status_uses_function_two_of_hsm() {
    let mut fw = ScriptedExecutor::new(0, 1, 0);
    let r = hart_get_status(&mut fw, 7);
    assert_eq!(r.error, 0);
    assert_eq!(r.value, 1);
    assert_eq!(
        fw.seen_modern,
        Some(ModernRegs { a0: 7, a1: 0, a2: 0, a6: 0x2, a7: 0x48534D })
    );
}

#[test]
fn hart_suspend_widens_the_suspend_type() {
    let mut fw = ScriptedExecutor::new(0, 0, 0);
    let r = hart_suspend(&mut fw, 0x8000_0000, 0x8040_0000, 55);
    assert_eq!(r.error, 0);
    assert_eq!(r.value, 0);
    assert_eq!(
        fw.seen_modern,
        Some(ModernRegs { a0: 0x8000_0000, a1: 0x8040_0000, a2: 55, a6: 0x3, a7: 0x48534D })
    );
}

#[test]
fn arity_helpers_zero_the_unused_argument_registers() {
    let mut fw = ScriptedExecutor::new(1, 2, 0);
    let r0 = sbi_call_0(&mut fw, 0x99, 0x7);
    assert_eq!((r0.error, r0.value), (1, 2));
    assert_eq!(
        fw.seen_modern,
        Some(ModernRegs { a0: 0, a1: 0, a2: 0, a6: 0x7, a7: 0x99 })
    );

    let r1 = sbi_call_1(&mut fw, 0x99, 0x7, 11);
    assert_eq!((r1.error, r1.value), (1, 2));
    assert_eq!(
        fw.seen_modern,
        Some(ModernRegs { a0: 11, a1: 0, a2: 0, a6: 0x7, a7: 0x99 })
    );

    let r2 = sbi_call_2(&mut fw, 0x99, 0x7, 11, 22);
    assert_eq!((r2.error, r2.value), (1, 2));
    assert_eq!(
        fw.seen_modern,
        Some(ModernRegs { a0: 11, a1: 22, a2: 0, a6: 0x7, a7: 0x99 })
    );

    let r3 = sbi_call_3(&mut fw, 0x99, 0x7, 11, 22, 33);
    assert_eq!((r3.error, r3.value), (1, 2));
    assert_eq!(
        fw.seen_modern,
        Some(ModernRegs { a0: 11, a1: 22, a2: 33, a6: 0x7, a7: 0x99 })
    );
}
