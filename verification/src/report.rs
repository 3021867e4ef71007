//! The report of one measurement: the two readings, their difference, what
//! is left of it without the fixed offset, and the lines that say so.

use crate::adapter::ClockIdentifier;
use crate::delta::{delta, less_offset, sign_of, tai_offset_nanos, SignedDelta};
use crate::reading::{distance, ClockReading};
use crate::sampler::{position_of, ClockReadFailure, SkewResult};
use crate::text::{duration_text, push_duration, push_signed, signed_text};
use vstd::prelude::*;
use vstd::string::StringExecFns;

verus! {

/// The layout in which the calendar date of a reading is written: weekday,
/// month, day, time of day with its fraction, year.
pub const DATE_FORMAT: &'static str = "%a %b %e %T.%f %Y";

/// The text that the moment `secs` seconds and `nanos` nanoseconds after the
/// start of 1970, in Coordinated Universal Time, has in the layout `format`;
/// `None` where the calendar has no such moment or the layout is not one.
pub uninterp spec fn utc_text(secs: int, nanos: int, format: Seq<char>) -> Option<Seq<char>>;

/// `chrono::DateTime::from_timestamp`, then `chrono::DateTime::format` on the
/// moment it gives, written out by `DelayedFormat::write_to`. The first gives
/// no moment for seconds out of the calendar's range or nanoseconds that are
/// not valid; the last fails where the layout holds an item that is not one.
/// Both depend on the three arguments alone, and the contract does no more
/// than give the outcome its name.
#[verifier::external_body]
fn format_utc(secs: i64, nanos: u32, format: &str) -> (text: Option<String>)
    ensures
        match text {
            Some(t) => utc_text(secs as int, nanos as int, format@) == Some(t@),
            None => utc_text(secs as int, nanos as int, format@).is_none(),
        },
{
    match chrono::DateTime::from_timestamp(secs, nanos) {
        Some(moment) => {
            let mut text = String::new();
            match moment.format(format).write_to(&mut text) {
                Ok(()) => Some(text),
                Err(_) => None,
            }
        },
        None => None,
    }
}

/// The calendar date of a reading taken as time since the start of 1970:
/// none where its seconds are past the signed 64-bit range, else what the
/// calendar gives for its seconds and nanoseconds in the layout of dates.
pub open spec fn calendar_of(nanos: nat) -> Option<Seq<char>> {
    if nanos / 1_000_000_000 > i64::MAX {
        None
    } else {
        utc_text((nanos / 1_000_000_000) as int, (nanos % 1_000_000_000) as int, DATE_FORMAT@)
    }
}

/// The calendar date of a reading, where it has one.
pub fn calendar_text(reading: &ClockReading) -> (text: Option<String>)
    ensures
        match text {
            Some(t) => calendar_of(reading@) == Some(t@),
            None => calendar_of(reading@).is_none(),
        },
{
    let secs: u64 = reading.secs();
    let nanos: u32 = reading.subsec_nanos();
    if secs > 0x7FFF_FFFF_FFFF_FFFF {
        None
    } else {
        format_utc(secs as i64, nanos, DATE_FORMAT)
    }
}

/// The line that reports one clock: its name and a colon, a tab, the
/// reading in seconds, a tab, and the calendar date in brackets.
pub open spec fn clock_line_text(id: ClockIdentifier, nanos: nat, calendar: Seq<char>) -> Seq<
    char,
> {
    id.spec_label() + seq![':', '\t'] + duration_text(nanos) + seq!['\t', '('] + calendar + seq![
        ')',
    ]
}

/// The line that reports one clock.
pub fn clock_line(id: ClockIdentifier, reading: &ClockReading, calendar: &str) -> (line: String)
    ensures
        line@ == clock_line_text(id, reading@, calendar@),
{
    proof {
        reveal_strlit(":\t");
        reveal_strlit("\t(");
        reveal_strlit(")");
        assert(":\t"@ =~= seq![':', '\t']);
        assert("\t("@ =~= seq!['\t', '(']);
        assert(")"@ =~= seq![')']);
    }
    let mut line = String::from_str(id.label());
    line.append(":\t");
    push_duration(&mut line, reading);
    line.append("\t(");
    line.append(calendar);
    line.append(")");
    line
}

/// A difference as text: the mark of its sign, then its magnitude in seconds.
pub open spec fn delta_text(d: SignedDelta) -> Seq<char> {
    d.spec_sign().spec_symbol() + duration_text(d.spec_magnitude()@)
}

/// The line that reports the difference between the clocks and, in
/// brackets, what is left of it without the fixed offset.
pub open spec fn delta_line_text(d: SignedDelta, residual: SignedDelta) -> Seq<char> {
    "Delta: "@ + delta_text(d) + " (Less RT/TAI offset: "@ + delta_text(residual) + seq![')']
}

/// Writes a difference to the end of `out`.
pub fn push_delta(out: &mut String, d: &SignedDelta)
    ensures
        final(out)@ == old(out)@ + delta_text(*d),
{
    let sign = d.sign();
    let magnitude = d.magnitude();
    out.append(sign.symbol());
    push_duration(out, &magnitude);
    assert(out@ =~= old(out)@ + delta_text(*d));
}

/// The line that reports the difference between the clocks.
pub fn delta_line(d: &SignedDelta, residual: &SignedDelta) -> (line: String)
    ensures
        line@ == delta_line_text(*d, *residual),
{
    proof {
        reveal_strlit(")");
        assert(")"@ =~= seq![')']);
    }
    let mut line = String::from_str("Delta: ");
    push_delta(&mut line, d);
    line.append(" (Less RT/TAI offset: ");
    push_delta(&mut line, residual);
    line.append(")");
    line
}

/// The message for a clock that could not be read: which clock, and the
/// system's error number.
pub open spec fn failure_text(f: ClockReadFailure) -> Seq<char> {
    "Unable to read clock "@ + f.clock.spec_label() + ": OS error "@ + signed_text(f.code.code as int)
}

/// The message for a clock that could not be read.
pub fn failure_message(f: &ClockReadFailure) -> (message: String)
    ensures
        message@ == failure_text(*f),
{
    let mut message = String::from_str("Unable to read clock ");
    message.append(f.clock.label());
    message.append(": OS error ");
    push_signed(&mut message, f.code.code);
    message
}

/// One measurement: the readings of the two clocks, the difference of the
/// wall clock from atomic time, and what is left of it without the offset.
#[derive(Clone, Copy, Debug, PartialEq, Eq, Structural)]
pub struct SkewReport {
    tai: ClockReading,
    realtime: ClockReading,
    delta: SignedDelta,
    residual: SignedDelta,
}

/// The three lines of a report: atomic time, the wall clock, the difference.
pub open spec fn report_lines(
    report: SkewReport,
    tai_calendar: Seq<char>,
    realtime_calendar: Seq<char>,
) -> Seq<Seq<char>> {
    seq![
        clock_line_text(ClockIdentifier::Tai, report.spec_tai()@, tai_calendar),
        clock_line_text(ClockIdentifier::Realtime, report.spec_realtime()@, realtime_calendar),
        delta_line_text(report.spec_delta(), report.spec_residual()),
    ]
}

/// The text of each line of `lines`.
pub open spec fn texts(lines: Seq<String>) -> Seq<Seq<char>> {
    Seq::new(lines.len(), |i: int| lines[i]@)
}

impl SkewReport {
    /// The reading of atomic time.
    pub closed spec fn spec_tai(&self) -> ClockReading {
        self.tai
    }

    /// The reading of the wall clock.
    pub closed spec fn spec_realtime(&self) -> ClockReading {
        self.realtime
    }

    /// The difference of the wall clock from atomic time.
    pub closed spec fn spec_delta(&self) -> SignedDelta {
        self.delta
    }

    /// What is left of the difference without the fixed offset.
    pub closed spec fn spec_residual(&self) -> SignedDelta {
        self.residual
    }

    /// The difference is that of the two readings, and the residual is that
    /// of the difference's magnitude and the fixed offset.
    #[verifier::type_invariant]
    pub open spec fn wf(&self) -> bool {
        &&& self.spec_tai().wf()
        &&& self.spec_realtime().wf()
        &&& self.spec_delta().wf()
        &&& self.spec_residual().wf()
        &&& self.spec_delta().spec_magnitude()@ == distance(self.spec_realtime()@, self.spec_tai()@)
        &&& self.spec_delta().spec_sign() == sign_of(self.spec_realtime()@, self.spec_tai()@)
        &&& self.spec_residual().spec_magnitude()@ == distance(
            self.spec_delta().spec_magnitude()@,
            tai_offset_nanos(),
        )
        &&& self.spec_residual().spec_sign() == sign_of(
            self.spec_delta().spec_magnitude()@,
            tai_offset_nanos(),
        )
    }

    /// The report of two readings taken together.
    pub fn measure(tai: ClockReading, realtime: ClockReading) -> (report: SkewReport)
        ensures
            report.wf(),
            report.spec_tai() == tai,
            report.spec_realtime() == realtime,
    {
        let d = delta(&realtime, &tai);
        let residual = less_offset(&d);
        proof {
            use_type_invariant(&tai);
            use_type_invariant(&realtime);
            use_type_invariant(&d);
            use_type_invariant(&residual);
        }
        SkewReport { tai, realtime, delta: d, residual }
    }

    /// The report of a sampling result: that of its first reading of atomic
    /// time and its first reading of the wall clock, where it has both.
    pub fn from_result(result: &SkewResult) -> (report: Option<SkewReport>)
        ensures
            ({
                let clocks = result.spec_clocks();
                let t = position_of(clocks, ClockIdentifier::Tai, 0);
                let r = position_of(clocks, ClockIdentifier::Realtime, 0);
                if t < clocks.len() && r < clocks.len() {
                    &&& report.is_some()
                    &&& report.unwrap().wf()
                    &&& report.unwrap().spec_tai() == result.spec_readings()[t]
                    &&& report.unwrap().spec_realtime() == result.spec_readings()[r]
                } else {
                    report.is_none()
                }
            }),
    {
        match result.reading_of(ClockIdentifier::Tai) {
            Some(tai) => match result.reading_of(ClockIdentifier::Realtime) {
                Some(realtime) => Some(SkewReport::measure(tai, realtime)),
                None => None,
            },
            None => None,
        }
    }

    /// The reading of atomic time.
    pub fn tai(&self) -> (r: ClockReading)
        ensures
            r == self.spec_tai(),
    {
        self.tai
    }

    /// The reading of the wall clock.
    pub fn realtime(&self) -> (r: ClockReading)
        ensures
            r == self.spec_realtime(),
    {
        self.realtime
    }

    /// The difference of the wall clock from atomic time.
    pub fn delta(&self) -> (d: SignedDelta)
        ensures
            d == self.spec_delta(),
            d@ == self.spec_realtime()@ - self.spec_tai()@,
    {
        proof {
            use_type_invariant(self);
        }
        self.delta
    }

    /// What is left of the difference without the fixed offset.
    pub fn residual(&self) -> (d: SignedDelta)
        ensures
            d == self.spec_residual(),
            d@ == distance(self.spec_realtime()@, self.spec_tai()@) - tai_offset_nanos(),
    {
        proof {
            use_type_invariant(self);
        }
        self.residual
    }

    /// The lines of the report, given the calendar dates of the two readings.
    pub fn lines(&self, tai_calendar: &str, realtime_calendar: &str) -> (lines: Vec<String>)
        ensures
            texts(lines@) == report_lines(*self, tai_calendar@, realtime_calendar@),
    {
        let mut lines: Vec<String> = Vec::with_capacity(3);
        lines.push(clock_line(ClockIdentifier::Tai, &self.tai, tai_calendar));
        lines.push(clock_line(ClockIdentifier::Realtime, &self.realtime, realtime_calendar));
        lines.push(delta_line(&self.delta, &self.residual));
        assert(texts(lines@) =~= report_lines(*self, tai_calendar@, realtime_calendar@));
        lines
    }

    /// The lines of the report, with the calendar date of each reading; none
    /// where a reading has no calendar date.
    pub fn render(&self) -> (lines: Option<Vec<String>>)
        ensures
            match lines {
                Some(l) => {
                    &&& calendar_of(self.spec_tai()@).is_some()
                    &&& calendar_of(self.spec_realtime()@).is_some()
                    &&& texts(l@) == report_lines(
                        *self,
                        calendar_of(self.spec_tai()@).unwrap(),
                        calendar_of(self.spec_realtime()@).unwrap(),
                    )
                },
                None => calendar_of(self.spec_tai()@).is_none() || calendar_of(
                    self.spec_realtime()@,
                ).is_none(),
            },
    {
        match calendar_text(&self.tai) {
            Some(tai_calendar) => match calendar_text(&self.realtime) {
                Some(realtime_calendar) => Some(
                    self.lines(tai_calendar.as_str(), realtime_calendar.as_str()),
                ),
                None => None,
            },
            None => None,
        }
    }
}

} // verus!
