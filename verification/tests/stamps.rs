use monostamp::stamp_time;
use monostamp::Inst;
use monostamp::Stamp;
use monostamp::COUNTER_BITS;
use monostamp::CURRENT_GENERATION;
use monostamp::GENERATION_BITS;
use monostamp::TIME_BITS;
use monostamp::TIME_MASK;

#[test]
fn it_works() {}

#[test]
fn field_widths_fill_the_stamp() {
    assert_eq!(GENERATION_BITS + TIME_BITS + COUNTER_BITS, 64);
}

#[test]
fn packing_is_deterministic() {
    assert_eq!(stamp_time(5, 7), stamp_time(5, 7));
    assert_eq!(
        stamp_time(1_700_000_000, 500_000_000),
        stamp_time(1_700_000_000, 500_000_000)
    );
    assert_eq!(Inst::new(5, 7).stamp(), Inst::new(5, 7).stamp());
}

#[test]
fn zero_reading_wraps_without_panicking() {
    // secs = 0, nanos = 0: the fixed subtraction of one second's worth of
    // shifted nanosecond units goes below zero and must wrap into the
    // 42-bit time field, not panic: 2^42 - 1_000_000_000 shifted over the
    // counter bits.
    assert_eq!(stamp_time(0, 0), 0x03FF_C465_3600_0000);
    assert_eq!(Inst::zero().stamp(), Stamp(0x03FF_C465_3600_0000));
}

#[test]
fn realistic_reading_fills_time_field_without_overflow() {
    // (1_700_000_000 + 500_000_000) << 10 minus one second of shifted
    // nanosecond units: 2_251_800_000_000 ticks, comfortably below 2^42.
    let stamp = stamp_time(1_700_000_000, 500_000_000);
    assert_ne!(stamp, 0);
    assert!(2_251_800_000_000u64 < (1 << TIME_BITS));
    assert_eq!((stamp & TIME_MASK) >> COUNTER_BITS, 2_251_800_000_000);
}

#[test]
fn generation_field_holds_the_constant() {
    for (secs, nanos) in [(0, 0), (1_000_000, 3), (u64::MAX, u64::MAX)] {
        let stamp = stamp_time(secs, nanos);
        assert_eq!(stamp >> (TIME_BITS + COUNTER_BITS), CURRENT_GENERATION);
    }
}

#[test]
fn counter_bits_are_always_zero() {
    for (secs, nanos) in [(0, 0), (1_700_000_000, 500_000_000), (u64::MAX, 999_999_999)] {
        let stamp = stamp_time(secs, nanos);
        assert_eq!(stamp & ((1 << COUNTER_BITS) - 1), 0);
    }
}

#[test]
fn later_in_range_readings_pack_greater_stamps() {
    // Readings whose tick counts fit the time field, one sub-second tick
    // unit apart and further.
    let a = stamp_time(1_000_000, 0);
    let b = stamp_time(1_000_000, 1);
    let c = stamp_time(1_000_001, 1);
    assert!(a < b);
    assert!(b < c);
    // Adjacent tick counts sit one full sub-second tick unit apart,
    // shifted over the counter bits.
    assert_eq!(b - a, 1024 << COUNTER_BITS);
}

#[test]
fn instant_components_are_kept() {
    let inst = Inst::new(12, 34);
    assert_eq!(inst.secs, 12);
    assert_eq!(inst.nanos, 34);
    assert_eq!(Inst::zero(), Inst::new(0, 0));
    assert_eq!(inst.stamp(), Stamp(stamp_time(12, 34)));
}
