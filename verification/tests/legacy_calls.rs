//! Every legacy-convention wrapper against a scripted handler: the handler
//! must see the documented call number and arguments, and the single raw
//! word it answers with must come back exactly where a result is defined.

use sbi_call::calls::sbi_call_legacy;
use sbi_call::services::console_getchar;
use sbi_call::services::console_putchar;
use sbi_call::services::set_timer;
use sbi_call::services::shutdown;
use sbi_call::substitute::ScriptedExecutor;
use sbi_call::trap::LegacyRegs;

#[test]
fn putchar_sends_call_number_one_and_the_character() {
    let mut fw = ScriptedExecutor::new(0, 0, 0);
    console_putchar(&mut fw, b'A' as usize);
    assert_eq!(
        fw.seen_legacy,
        Some(LegacyRegs { a0: b'A' as usize, a1: 0, a2: 0, a7: 1 })
    );
    assert_eq!(fw.seen_modern, None);
}

#[test]
fn getchar_returns_the_raw_word() {
    let mut fw = ScriptedExecutor::new(0, 0, b'z' as usize);
    let w = console_getchar(&mut fw);
    assert_eq!(w, b'z' as usize);
    assert_eq!(fw.seen_legacy, Some(LegacyRegs { a0: 0, a1: 0, a2: 0, a7: 2 }));
}

#[test]
fn getchar_keeps_a_no_character_sentinel_raw() {
    // The legacy convention folds "no character" into the word itself; the
    // layer must not normalize it away.
    let mut fw = ScriptedExecutor::new(0, 0, usize::MAX);
    let w = console_getchar(&mut fw);
    assert_eq!(w, usize::MAX);
}

#[test]
fn set_timer_sends_call_number_zero_and_the_time() {
    let mut fw = ScriptedExecutor::new(0, 0, 0);
    set_timer(&mut fw, 0xDEAD_0000);
    assert_eq!(
        fw.seen_legacy,
        Some(LegacyRegs { a0: 0xDEAD_0000, a1: 0, a2: 0, a7: 0 })
    );
}

#[test]
fn shutdown_sends_call_number_eight_and_surfaces_a_return() {
    // A handler that answers at all has declined to halt; the word it left
    // must surface as the fault, not vanish.
    let mut fw = ScriptedExecutor::new(0, 0, 0x5D);
    let fault = shutdown(&mut fw);
    assert_eq!(fault, 0x5D);
    assert_eq!(fw.seen_legacy, Some(LegacyRegs { a0: 0, a1: 0, a2: 0, a7: 8 }));
}

#[test]
fn legacy_helper_passes_all_three_arguments() {
    let mut fw = ScriptedExecutor::new(0, 0, 77);
    let w = sbi_call_legacy(&mut fw, 6, 0x1000, 0x2000, 0x11);
    assert_eq!(w, 77);
    assert_eq!(
        fw.seen_legacy,
        Some(LegacyRegs { a0: 0x1000, a1: 0x2000, a2: 0x11, a7: 6 })
    );
}
