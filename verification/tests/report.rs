use clock_skew::adapter::{measured_clocks, ClockIdentifier, OsErrorCode};
use clock_skew::delta::{delta, less_offset, Sign};
use clock_skew::reading::ClockReading;
use clock_skew::report::{
    calendar_text, clock_line, delta_line, failure_message, SkewReport, DATE_FORMAT,
};
use clock_skew::sampler::{assemble, ClockReadFailure};
use clock_skew::text::{push_decimal, push_signed, render_duration};

#[test]
fn decimal_numbers() {
    for (n, text) in [
        (0u64, "0"),
        (7, "7"),
        (10, "10"),
        (1_700_000_000, "1700000000"),
        (u64::MAX, "18446744073709551615"),
    ] {
        let mut out = String::from("n=");
        push_decimal(&mut out, n);
        assert_eq!(out, format!("n={}", text));
    }
}

#[test]
fn signed_numbers() {
    for v in [0, 22, -1, i32::MAX, i32::MIN] {
        let mut out = String::new();
        push_signed(&mut out, v);
        assert_eq!(out, format!("{}", v));
    }
}

#[test]
fn whole_seconds_have_no_fraction() {
    assert_eq!(render_duration(&ClockReading::new(0, 0)), "0s");
    assert_eq!(render_duration(&ClockReading::new(37, 0)), "37s");
    assert_eq!(render_duration(&ClockReading::new(1_700_000_000, 0)), "1700000000s");
}

#[test]
fn the_fraction_drops_the_zeros_at_its_end() {
    assert_eq!(render_duration(&ClockReading::new(100, 37)), "100.000000037s");
    assert_eq!(render_duration(&ClockReading::new(1, 500_000_000)), "1.5s");
    assert_eq!(render_duration(&ClockReading::new(2, 120_000)), "2.00012s");
    assert_eq!(render_duration(&ClockReading::new(0, 37)), "0.000000037s");
    assert_eq!(render_duration(&ClockReading::new(0, 999_999_999)), "0.999999999s");
    assert_eq!(render_duration(&ClockReading::new(3, 100_000_001)), "3.100000001s");
}

#[test]
fn seconds_are_written_as_the_standard_library_writes_them() {
    for (secs, nanos) in [(1u64, 0u32), (5, 250_000_000), (1_700_000_000, 123_456_789), (9, 10)] {
        let expected = format!("{:?}", std::time::Duration::new(secs, nanos));
        assert_eq!(render_duration(&ClockReading::new(secs, nanos)), expected);
    }
}

#[test]
fn the_date_layout() {
    assert_eq!(DATE_FORMAT, "%a %b %e %T.%f %Y");
}

#[test]
fn calendar_dates_in_universal_time() {
    assert_eq!(
        calendar_text(&ClockReading::new(0, 0)).unwrap(),
        "Thu Jan  1 00:00:00.000000000 1970"
    );
    assert_eq!(
        calendar_text(&ClockReading::new(1_431_648_000, 0)).unwrap(),
        "Fri May 15 00:00:00.000000000 2015"
    );
    assert_eq!(
        calendar_text(&ClockReading::new(1_700_000_037, 123_456_789)).unwrap(),
        "Tue Nov 14 22:13:57.123456789 2023"
    );
}

#[test]
fn readings_past_the_calendar_have_no_date() {
    assert_eq!(calendar_text(&ClockReading::new(u64::MAX, 0)), None);
    assert_eq!(calendar_text(&ClockReading::new(1 << 63, 0)), None);
    assert_eq!(calendar_text(&ClockReading::new(i64::MAX as u64, 0)), None);
}

#[test]
fn the_line_of_one_clock() {
    let line = clock_line(
        ClockIdentifier::Tai,
        &ClockReading::new(1_700_000_037, 5_000),
        "Tue Nov 14 22:13:57.000005000 2023",
    );
    assert_eq!(line, "CLOCK_TAI:\t1700000037.000005s\t(Tue Nov 14 22:13:57.000005000 2023)");
    let line = clock_line(ClockIdentifier::Realtime, &ClockReading::new(3, 0), "");
    assert_eq!(line, "CLOCK_REALTIME:\t3s\t()");
}

#[test]
fn the_line_of_the_difference() {
    let realtime = ClockReading::new(1_700_000_000, 0);
    let tai = ClockReading::new(1_700_000_037, 0);
    let d = delta(&realtime, &tai);
    assert_eq!(delta_line(&d, &less_offset(&d)), "Delta: -37s (Less RT/TAI offset:  0s)");

    let d = delta(&tai, &realtime);
    assert_eq!(delta_line(&d, &less_offset(&d)), "Delta:  37s (Less RT/TAI offset:  0s)");

    let d = delta(&ClockReading::new(100, 0), &ClockReading::new(100, 37));
    assert_eq!(
        delta_line(&d, &less_offset(&d)),
        "Delta: -0.000000037s (Less RT/TAI offset: -36.999999963s)"
    );
}

#[test]
fn the_message_of_a_failure() {
    let f = ClockReadFailure { clock: ClockIdentifier::Tai, code: OsErrorCode { code: 22 } };
    assert_eq!(failure_message(&f), "Unable to read clock CLOCK_TAI: OS error 22");
    let f = ClockReadFailure { clock: ClockIdentifier::Realtime, code: OsErrorCode { code: -1 } };
    assert_eq!(failure_message(&f), "Unable to read clock CLOCK_REALTIME: OS error -1");
}

#[test]
fn a_report_holds_both_differences() {
    let report =
        SkewReport::measure(ClockReading::new(1_700_000_037, 0), ClockReading::new(1_700_000_000, 0));
    assert_eq!(report.tai(), ClockReading::new(1_700_000_037, 0));
    assert_eq!(report.realtime(), ClockReading::new(1_700_000_000, 0));
    assert_eq!(report.delta().magnitude(), ClockReading::new(37, 0));
    assert_eq!(report.delta().sign(), Sign::Negative);
    assert_eq!(report.residual().magnitude(), ClockReading::new(0, 0));
    assert_eq!(report.residual().sign(), Sign::Neutral);
}

#[test]
fn a_report_of_a_sampling_result() {
    let ids = measured_clocks();
    let outcomes = vec![Ok(ClockReading::new(137, 0)), Ok(ClockReading::new(100, 500))];
    let result = assemble(&ids, &outcomes).unwrap();
    let report = SkewReport::from_result(&result).unwrap();
    assert_eq!(report, SkewReport::measure(ClockReading::new(137, 0), ClockReading::new(100, 500)));

    let only_tai = assemble(&vec![ClockIdentifier::Tai], &vec![Ok(ClockReading::new(1, 0))]).unwrap();
    assert_eq!(SkewReport::from_result(&only_tai), None);
}

#[test]
fn the_lines_of_a_report() {
    let report = SkewReport::measure(ClockReading::new(137, 0), ClockReading::new(100, 0));
    assert_eq!(
        report.lines("then", "now"),
        vec![
            "CLOCK_TAI:\t137s\t(then)".to_string(),
            "CLOCK_REALTIME:\t100s\t(now)".to_string(),
            "Delta: -37s (Less RT/TAI offset:  0s)".to_string(),
        ]
    );
}

#[test]
fn a_rendered_report_carries_the_calendar_dates() {
    let report = SkewReport::measure(
        ClockReading::new(1_700_000_037, 123_456_789),
        ClockReading::new(1_700_000_000, 123_456_789),
    );
    assert_eq!(
        report.render().unwrap(),
        vec![
            "CLOCK_TAI:\t1700000037.123456789s\t(Tue Nov 14 22:13:57.123456789 2023)".to_string(),
            "CLOCK_REALTIME:\t1700000000.123456789s\t(Tue Nov 14 22:13:20.123456789 2023)"
                .to_string(),
            "Delta: -37s (Less RT/TAI offset:  0s)".to_string(),
        ]
    );
    let late = SkewReport::measure(ClockReading::new(u64::MAX, 0), ClockReading::new(0, 0));
    assert_eq!(late.render(), None);
}
