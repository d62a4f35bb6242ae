use monostamp::inst_from_clock_result;
use monostamp::inst_from_reading;
use monostamp::AtomicClock;
use monostamp::Error;
use monostamp::Inst;
use monostamp::MonotonicClock;
use monostamp::TimeSource;

#[test]
fn negative_seconds_reading_is_rejected() {
    // A simulated clock source reporting secs = -1, nanos = 0 must fail
    // with the negative-reading error and produce no instant.
    let reading = inst_from_reading(-1, 0);
    assert_eq!(reading, Err(Error::NegativeTimeSpec(-1, 0)));
}

#[test]
fn negative_nanoseconds_reading_is_rejected() {
    let reading = inst_from_reading(0, -7);
    assert_eq!(reading, Err(Error::NegativeTimeSpec(0, -7)));
}

#[test]
fn nonnegative_reading_becomes_an_instant() {
    let reading = inst_from_reading(3, 7);
    assert_eq!(reading, Ok(Inst::new(3, 7)));
}

#[test]
fn os_error_code_is_propagated_unchanged() {
    // A failed read comes back as the nix error with its raw code; 22 is
    // EINVAL on this platform.
    assert_eq!(inst_from_clock_result(Err(22)), Err(Error::NixError(22)));
}

#[test]
fn successful_read_outcome_is_validated() {
    assert_eq!(inst_from_clock_result(Ok((3, 7))), Ok(Inst::new(3, 7)));
    assert_eq!(
        inst_from_clock_result(Ok((-1, 0))),
        Err(Error::NegativeTimeSpec(-1, 0))
    );
}

struct FailingClock;

impl TimeSource for FailingClock {
    // Erased stub of the trait's ghost promise; never called at runtime.
    fn infallible() -> bool {
        false
    }

    fn tick() -> Result<Inst, Error> {
        inst_from_reading(-1, 0)
    }
}

#[test]
fn failing_source_propagates_through_the_facade() {
    let clock = AtomicClock::with_source(FailingClock);
    assert_eq!(clock.try_now(), Err(Error::NegativeTimeSpec(-1, 0)));
}

#[test]
fn monotonic_clock_ticks() {
    let inst = MonotonicClock::tick().expect("reading the boot clock");
    // A freshly booted machine aside, the boot clock has advanced; either
    // way the reading was accepted as nonnegative.
    let _ = inst;
}

#[test]
fn monotonic_clock_constructs() {
    assert!(MonotonicClock::try_new().is_ok());
}

#[test]
fn facade_over_monotonic_clock_constructs_and_ticks() {
    let clock = AtomicClock::try_new().expect("constructing the clock");
    assert!(clock.try_now().is_ok());
}

#[test]
fn facade_over_explicit_source_ticks() {
    let source = MonotonicClock::try_new().expect("constructing the clock");
    let clock = AtomicClock::with_source(source);
    assert!(clock.try_now().is_ok());
}
