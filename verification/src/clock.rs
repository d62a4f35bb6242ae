//! Monotonic time sources feeding the stamp packer.
//!
//! A `TimeSource` supplies the current instant. `MonotonicClock` is the
//! concrete source backed by the OS boot-relative monotonic clock; only
//! the raw clock read itself is trusted, and the reading is validated
//! here before it becomes an `Inst`. `AtomicClock` is a thin façade over
//! any source, producing one instant per call.

use crate::layout::Inst;
use vstd::prelude::*;

verus! {

/// Why a clock reading could not be turned into an instant.
#[derive(Clone, Copy, PartialEq, Eq, Structural, Debug)]
pub enum Error {
    /// The OS call reading the clock failed; carries the raw OS error code.
    NixError(i32),
    /// The clock reported a negative component, which a monotonic clock
    /// never legitimately does; carries the raw (seconds, nanoseconds)
    /// reading for diagnostics.
    NegativeTimeSpec(i64, i64),
}

/// Turns a raw (seconds, nanoseconds) clock reading into an instant,
/// rejecting readings with a negative component. This is the single point
/// of validation for raw readings: adapters hand the components through
/// unchanged.
pub fn inst_from_reading(secs: i64, nanos: i64) -> (r: Result<Inst, Error>)
    ensures
        secs >= 0 && nanos >= 0 ==> r == Ok::<Inst, Error>(
            Inst { secs: secs as u64, nanos: nanos as u64 },
        ),
        secs < 0 || nanos < 0 ==> r == Err::<Inst, Error>(Error::NegativeTimeSpec(secs, nanos)),
{
    if secs < 0 || nanos < 0 {
        Err(Error::NegativeTimeSpec(secs, nanos))
    } else {
        Ok(Inst::new(secs as u64, nanos as u64))
    }
}

/// Turns the whole outcome of a raw clock read into an instant or an
/// error: a failed read comes back as `NixError` carrying the raw OS
/// error code unchanged — no retry, no substitution — and a successful
/// reading is validated by `inst_from_reading`.
pub fn inst_from_clock_result(reading: Result<(i64, i64), i32>) -> (r: Result<Inst, Error>)
    ensures
        reading matches Ok(read) ==> (read.0 >= 0 && read.1 >= 0 ==> r == Ok::<Inst, Error>(
            Inst { secs: read.0 as u64, nanos: read.1 as u64 },
        )),
        reading matches Ok(read) ==> (read.0 < 0 || read.1 < 0 ==> r == Err::<Inst, Error>(
            Error::NegativeTimeSpec(read.0, read.1),
        )),
        reading matches Err(code) ==> r == Err::<Inst, Error>(Error::NixError(code)),
{
    match reading {
        Ok((secs, nanos)) => inst_from_reading(secs, nanos),
        Err(code) => Err(Error::NixError(code)),
    }
}

/// Relies on `nix::time::clock_gettime` with `ClockId::CLOCK_BOOTTIME`: one
/// read of the boot-relative monotonic clock, handing back the raw
/// (seconds, nanoseconds) pair on success and the raw OS error code on
/// failure. Nothing is assumed about the values read — the clock decides
/// them — so the caller validates every outcome.
#[verifier::external_body]
fn read_boot_clock() -> Result<(i64, i64), i32> {
    match nix::time::clock_gettime(nix::time::ClockId::CLOCK_BOOTTIME) {
        Ok(tspec) => Ok((tspec.tv_sec(), tspec.tv_nsec())),
        Err(errno) => Err(errno as i32),
    }
}

/// A source of current instants.
///
/// `infallible()` is the source's own promise that `tick` cannot fail;
/// `must_tick` is available only under that promise, so a verified caller
/// can demand an instant outright only from a source that proved it never
/// fails.
pub trait TimeSource {
    /// Whether this source promises that `tick` always succeeds.
    spec fn infallible() -> bool;

    /// The current instant, or why it could not be read. A
    /// negative-reading error always carries a genuinely negative raw
    /// reading.
    fn tick() -> (r: Result<Inst, Error>)
        ensures
            Self::infallible() ==> r is Ok,
            r matches Err(Error::NegativeTimeSpec(s, n)) ==> s < 0 || n < 0,
    ;

    /// The current instant, from a source that cannot fail: an instant
    /// that the source's own `tick` contract allows as a success.
    fn must_tick() -> (r: Inst)
        requires
            Self::infallible(),
        ensures
            call_ensures(Self::tick, (), Ok::<Inst, Error>(r)),
    {
        match Self::tick() {
            Ok(inst) => inst,
            Err(_) => vstd::pervasive::unreached(),
        }
    }
}

/// A `TimeSource` reading the boot-relative monotonic clock, which is
/// immune to wall-clock adjustments. Records the instant observed when it
/// was constructed.
pub struct MonotonicClock {
    /// The instant at which this clock was initialized, kept for future
    /// elapsed-time computations.
    init: Inst,
}

impl MonotonicClock {
    /// A clock initialized from a first reading; fails exactly as `tick`
    /// does when that initial read cannot be turned into an instant.
    pub fn try_new() -> (r: Result<Self, Error>)
        ensures
            r matches Err(Error::NegativeTimeSpec(s, n)) ==> s < 0 || n < 0,
    {
        match Self::tick() {
            Ok(init) => Ok(MonotonicClock { init }),
            Err(err) => Err(err),
        }
    }
}

impl TimeSource for MonotonicClock {
    /// The OS call can fail, so this source makes no infallibility promise.
    open spec fn infallible() -> bool {
        false
    }

    fn tick() -> (r: Result<Inst, Error>) {
        inst_from_clock_result(read_boot_clock())
    }
}

/// A thin façade over any `TimeSource`, offering a stable call surface
/// that produces one instant per call. No counter semantics and no
/// synchronization beyond what the wrapped source provides.
pub struct AtomicClock<T> {
    source: T,
}

impl<T> AtomicClock<T> {
    /// The wrapped source.
    pub closed spec fn wrapped(self) -> T {
        self.source
    }
}

impl AtomicClock<MonotonicClock> {
    /// A façade over a freshly constructed monotonic clock; fails exactly
    /// as the clock's construction does.
    pub fn try_new() -> (r: Result<Self, Error>)
        ensures
            r matches Err(Error::NegativeTimeSpec(s, n)) ==> s < 0 || n < 0,
    {
        match MonotonicClock::try_new() {
            Ok(source) => Ok(AtomicClock { source }),
            Err(err) => Err(err),
        }
    }
}

impl<T: TimeSource> AtomicClock<T> {
    /// Wraps an already-constructed source.
    pub fn with_source(source: T) -> (r: Self)
        ensures
            r.wrapped() == source,
    {
        AtomicClock { source }
    }

    /// The current instant from the wrapped source, or why it could not
    /// be read: exactly an outcome the source's own `tick` contract
    /// allows.
    pub fn try_now(&self) -> (r: Result<Inst, Error>)
        ensures
            call_ensures(T::tick, (), r),
            T::infallible() ==> r is Ok,
            r matches Err(Error::NegativeTimeSpec(s, n)) ==> s < 0 || n < 0,
    {
        T::tick()
    }

    /// The current instant, from a façade whose source cannot fail: an
    /// instant the source's own `tick` contract allows as a success.
    pub fn now(&self) -> (r: Inst)
        requires
            T::infallible(),
        ensures
            call_ensures(T::tick, (), Ok::<Inst, Error>(r)),
    {
        match self.try_now() {
            Ok(inst) => inst,
            Err(_) => vstd::pervasive::unreached(),
        }
    }
}

} // verus!
