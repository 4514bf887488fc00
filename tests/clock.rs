use dwt_systick_monotonic::{extend_reading, reload_for, DwtSystick, InitError, RELOAD_MAX};

type Clock = DwtSystick<48_000_000>;

fn wide_clock() -> Clock {
    Clock::new(48_000_000, true, true).unwrap()
}

fn narrow_clock() -> Clock {
    Clock::new(48_000_000, true, false).unwrap()
}

#[test]
fn frequency_mismatch_prevents_init() {
    let r = DwtSystick::<48_000_000>::new(8_000_000, true, false);
    assert_eq!(r.err(), Some(InitError::FrequencyMismatch));
    let r = DwtSystick::<48_000_000>::new(8_000_000, true, true);
    assert_eq!(r.err(), Some(InitError::FrequencyMismatch));
}

#[test]
fn missing_cycle_counter_prevents_init() {
    let r = DwtSystick::<48_000_000>::new(48_000_000, false, true);
    assert_eq!(r.err(), Some(InitError::NoCycleCounter));
}

#[test]
fn new_clock_starts_at_zero() {
    let c = wide_clock();
    assert!(c.is_wide());
    assert_eq!(c.cycle_offset(), 0);
    assert_eq!(c.last(), 0);
    assert!(!narrow_clock().is_wide());
}

#[test]
fn narrow_now_is_raw_counter() {
    let mut c = narrow_clock();
    assert_eq!(c.now(5), 5);
    assert_eq!(c.now(u32::MAX), u32::MAX as u64);
    assert_eq!(c.now(3), 3);
}

#[test]
fn wide_now_counts_wraps() {
    let mut c = wide_clock();
    let vs: [u32; 6] = [10, 0x8000_0000, 0xFFFF_FFF0, 5, 0x7000_0000, 2];
    let want: [u64; 6] = [
        10,
        0x8000_0000,
        0xFFFF_FFF0,
        0x1_0000_0005,
        0x1_7000_0000,
        0x2_0000_0002,
    ];
    let mut prev = 0u64;
    for i in 0..vs.len() {
        let r = c.now(vs[i]);
        assert_eq!(r, want[i]);
        assert!(r >= prev);
        assert_eq!(r % (1u64 << 32), vs[i] as u64);
        prev = r;
    }
    assert_eq!(c.last(), 0x2_0000_0002);
}

#[test]
fn extend_reading_values() {
    assert_eq!(extend_reading(0, 7), 7);
    assert_eq!(extend_reading(0x3_0000_0010, 0x20), 0x3_0000_0020);
    assert_eq!(extend_reading(0x3_0000_0010, 0x10), 0x3_0000_0010);
    assert_eq!(extend_reading(0x3_0000_0010, 0x0F), 0x4_0000_000F);
    assert_eq!(extend_reading(0xFFFF_FFFF_FFFF_FFF0, 1), 1);
}

#[test]
fn adjusted_now_is_zero_after_reset() {
    let mut c = wide_clock();
    c.now(100);
    c.reset(0x1234);
    assert_eq!(c.cycle_offset(), 0x1234);
    assert_eq!(c.adjusted_now(0x1234), 0);
    assert_eq!(c.adjusted_now(0x1235), 1);

    let mut n = narrow_clock();
    n.reset(0xFFFF_FFF0);
    assert_eq!(n.adjusted_now(0xFFFF_FFF0), 0);
    assert_eq!(n.adjusted_now(0x10), 0x20);
}

#[test]
fn wide_adjusted_now_after_reset_across_wrap() {
    let mut c = wide_clock();
    c.reset(0xFFFF_FF00);
    assert_eq!(c.adjusted_now(0x100), 0x200);
    assert_eq!(c.unadjusted_now(0x200), 0x1_0000_0200);
}

#[test]
fn zero_offset_keeps_raw_time() {
    assert_eq!(Clock::zero(), 0);
    let mut c = wide_clock();
    assert_eq!(c.cycle_offset(), Clock::zero());
    c.now(0xFFFF_0000);
    let mut d = wide_clock();
    d.now(0xFFFF_0000);
    assert_eq!(c.adjusted_now(0x10), d.unadjusted_now(0x10));
    let mut n = narrow_clock();
    assert_eq!(n.adjusted_now(77), 77);
    assert_eq!(n.unadjusted_now(77), 77);
}

#[test]
fn set_compare_past_target_reloads_one() {
    let mut c = wide_clock();
    assert_eq!(c.set_compare(500, 1000), 1);
    assert_eq!(c.set_compare(1000, 1000), 1);
    let mut n = narrow_clock();
    assert_eq!(n.set_compare(0, 1000), 1);
    assert_eq!(n.set_compare(1000, 1000), 1);
    assert_eq!(n.set_compare(0xFFFF_FF00, 0x10), 1);
}

#[test]
fn set_compare_far_target_reloads_max() {
    let mut c = wide_clock();
    assert_eq!(c.set_compare(1000 + 0x100_0000, 1000), RELOAD_MAX);
    assert_eq!(c.set_compare(0x1_0000_0000, 1000), 0xFF_FFFF);
    let mut n = narrow_clock();
    assert_eq!(n.set_compare(0x7000_0000, 0), 0xFF_FFFF);
}

#[test]
fn set_compare_near_target_reloads_delta() {
    let mut c = wide_clock();
    assert_eq!(c.set_compare(1001, 1000), 1);
    assert_eq!(c.set_compare(1000 + 12345, 1000), 12345);
    assert_eq!(c.set_compare(1000 + 0xFF_FFFF, 1000), 0xFF_FFFF);
    let mut n = narrow_clock();
    // The target lies past the counter's wrap.
    assert_eq!(n.set_compare(0x10, 0xFFFF_FFF0), 0x20);
}

#[test]
fn reload_for_values() {
    assert_eq!(reload_for(true, 10, 3), 7);
    assert_eq!(reload_for(false, 10, 3), 7);
    assert_eq!(reload_for(true, 3, 10), 1);
    assert_eq!(reload_for(false, 3, 10), 1);
    // Narrow instants compare modulo 2^32.
    assert_eq!(reload_for(false, 5, 0xFFFF_FFFF), 6);
    assert_eq!(reload_for(true, 5, 0xFFFF_FFFF), 1);
    // Exactly half the narrow range ahead still counts as ahead.
    assert_eq!(reload_for(false, 0x7FFF_FFFF, 0), RELOAD_MAX);
    assert_eq!(reload_for(false, 0x8000_0000, 0), 1);
}

#[test]
fn clear_compare_flag_rearms_wide_only() {
    let mut c = wide_clock();
    assert_eq!(c.set_compare(1100, 1000), 100);
    assert_eq!(c.clear_compare_flag(), Some(0xFF_FFFF));
    let n = narrow_clock();
    assert_eq!(n.clear_compare_flag(), None);
}

#[test]
fn on_interrupt_tracks_wraps() {
    let mut c = wide_clock();
    c.on_interrupt(0xF000_0000);
    c.on_interrupt(0x1000_0000);
    assert_eq!(c.last(), 0x1_1000_0000);
    assert_eq!(c.now(0x1000_0001), 0x1_1000_0001);
}

#[test]
fn interrupt_masking_by_configuration() {
    assert!(!wide_clock().disable_interrupt_on_empty_queue());
    assert!(narrow_clock().disable_interrupt_on_empty_queue());
}
