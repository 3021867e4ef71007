//! The clock source adapter: which kernel clocks are read, and what one
//! read of a clock amounts to.

use crate::reading::{timespec_fits, timespec_nanos, ClockReading};
use vstd::prelude::*;

verus! {

/// One of the two kernel clocks that are measured.
#[derive(Clone, Copy, Debug, PartialEq, Eq, Structural)]
pub enum ClockIdentifier {
    /// International Atomic Time, a clock without leap seconds.
    Tai,
    /// The system's wall clock.
    Realtime,
}

/// The error number that the operating system gave for a failed call.
#[derive(Clone, Copy, Debug, PartialEq, Eq, Structural)]
pub struct OsErrorCode {
    pub code: i32,
}

/// `linux_api::time::CLOCK_TAI`, the number by which the kernel knows the
/// atomic-time clock. The crate defines it as 11, and that is all this claims.
#[verifier::external_body]
fn kernel_clock_tai() -> (id: i32)
    ensures
        id == 11,
{
    linux_api::time::CLOCK_TAI
}

/// `linux_api::time::CLOCK_REALTIME`, the number by which the kernel knows
/// the wall clock. The crate defines it as 0, and that is all this claims.
#[verifier::external_body]
fn kernel_clock_realtime() -> (id: i32)
    ensures
        id == 0,
{
    linux_api::time::CLOCK_REALTIME
}

impl ClockIdentifier {
    /// The number that the kernel's clock interface takes for this clock.
    pub open spec fn spec_kernel_id(self) -> int {
        match self {
            ClockIdentifier::Tai => 11,
            ClockIdentifier::Realtime => 0,
        }
    }

    /// The name under which this clock is reported.
    pub open spec fn spec_label(self) -> Seq<char> {
        match self {
            ClockIdentifier::Tai => "CLOCK_TAI"@,
            ClockIdentifier::Realtime => "CLOCK_REALTIME"@,
        }
    }

    /// The number that the kernel's clock interface takes for this clock:
    /// the atomic-time clock for `Tai`, the wall clock for `Realtime`.
    pub fn kernel_id(&self) -> (id: i32)
        ensures
            id == self.spec_kernel_id(),
    {
        match self {
            ClockIdentifier::Tai => kernel_clock_tai(),
            ClockIdentifier::Realtime => kernel_clock_realtime(),
        }
    }

    /// The name under which this clock is reported.
    pub fn label(&self) -> (s: &'static str)
        ensures
            s@ == self.spec_label(),
    {
        match self {
            ClockIdentifier::Tai => "CLOCK_TAI",
            ClockIdentifier::Realtime => "CLOCK_REALTIME",
        }
    }
}

/// The clocks of one measurement, in the order in which they are reported:
/// atomic time first, then the wall clock.
pub fn measured_clocks() -> (ids: Vec<ClockIdentifier>)
    ensures
        ids@ == seq![ClockIdentifier::Tai, ClockIdentifier::Realtime],
{
    let mut ids: Vec<ClockIdentifier> = Vec::new();
    ids.push(ClockIdentifier::Tai);
    ids.push(ClockIdentifier::Realtime);
    assert(ids@ =~= seq![ClockIdentifier::Tai, ClockIdentifier::Realtime]);
    ids
}

/// What one call of the kernel's clock interface amounts to. `status` is what
/// the call returned, `tv_sec` and `tv_nsec` the time record it filled, and
/// `os_error` the error number that the system held after the call. A status
/// of zero is a reading of the record; any other is a failure with the error
/// number as the system gave it.
pub fn read_outcome(status: i32, tv_sec: i64, tv_nsec: i64, os_error: i32) -> (r: Result<
    ClockReading,
    OsErrorCode,
>)
    requires
        status == 0 ==> timespec_fits(tv_sec as int, tv_nsec as int),
    ensures
        status == 0 ==> r.is_ok() && r.unwrap()@ == timespec_nanos(tv_sec as int, tv_nsec as int),
        status != 0 ==> r == Err::<ClockReading, OsErrorCode>(OsErrorCode { code: os_error }),
{
    if status == 0 {
        Ok(ClockReading::from_timespec(tv_sec, tv_nsec))
    } else {
        Err(OsErrorCode { code: os_error })
    }
}

} // verus!
