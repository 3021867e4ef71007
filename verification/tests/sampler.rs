use clock_skew::adapter::{measured_clocks, read_outcome, ClockIdentifier, OsErrorCode};
use clock_skew::reading::ClockReading;
use clock_skew::sampler::{assemble, sample_sequential, ClockReadFailure, Collector};
use std::cell::RefCell;

#[test]
fn kernel_numbers_of_the_two_clocks() {
    assert_eq!(ClockIdentifier::Tai.kernel_id(), 11);
    assert_eq!(ClockIdentifier::Realtime.kernel_id(), 0);
    assert_eq!(ClockIdentifier::Tai.label(), "CLOCK_TAI");
    assert_eq!(ClockIdentifier::Realtime.label(), "CLOCK_REALTIME");
}

#[test]
fn atomic_time_is_measured_first() {
    assert_eq!(measured_clocks(), vec![ClockIdentifier::Tai, ClockIdentifier::Realtime]);
}

#[test]
fn a_zero_status_is_a_reading() {
    assert_eq!(read_outcome(0, 100, 37, 0), Ok(ClockReading::new(100, 37)));
    // A stale error number plays no part when the call succeeded.
    assert_eq!(read_outcome(0, 100, 37, 22), Ok(ClockReading::new(100, 37)));
}

#[test]
fn any_other_status_is_the_error_number() {
    assert_eq!(read_outcome(-1, 100, 37, 22), Err(OsErrorCode { code: 22 }));
    assert_eq!(read_outcome(1, 0, 0, 1), Err(OsErrorCode { code: 1 }));
}

#[test]
fn assemble_keeps_the_order_asked() {
    let ids = vec![ClockIdentifier::Realtime, ClockIdentifier::Tai, ClockIdentifier::Realtime];
    let outcomes = vec![
        Ok(ClockReading::new(1, 0)),
        Ok(ClockReading::new(2, 0)),
        Ok(ClockReading::new(3, 0)),
    ];
    let result = assemble(&ids, &outcomes).unwrap();
    assert_eq!(result.len(), 3);
    assert_eq!(result.clock(0), Some(ClockIdentifier::Realtime));
    assert_eq!(result.clock(1), Some(ClockIdentifier::Tai));
    assert_eq!(result.clock(2), Some(ClockIdentifier::Realtime));
    assert_eq!(result.clock(3), None);
    assert_eq!(result.reading(0), Some(ClockReading::new(1, 0)));
    assert_eq!(result.reading(1), Some(ClockReading::new(2, 0)));
    assert_eq!(result.reading(2), Some(ClockReading::new(3, 0)));
    assert_eq!(result.reading(3), None);
    assert_eq!(result.reading_of(ClockIdentifier::Tai), Some(ClockReading::new(2, 0)));
    assert_eq!(result.reading_of(ClockIdentifier::Realtime), Some(ClockReading::new(1, 0)));
}

#[test]
fn assemble_of_nothing_is_an_empty_result() {
    let result = assemble(&vec![], &vec![]).unwrap();
    assert_eq!(result.len(), 0);
    assert_eq!(result.reading_of(ClockIdentifier::Tai), None);
}

#[test]
fn assemble_gives_no_partial_result() {
    let ids = measured_clocks();
    let outcomes = vec![Ok(ClockReading::new(1, 0)), Err(OsErrorCode { code: 22 })];
    let failure = assemble(&ids, &outcomes).unwrap_err();
    assert_eq!(
        failure,
        ClockReadFailure { clock: ClockIdentifier::Realtime, code: OsErrorCode { code: 22 } }
    );
}

#[test]
fn assemble_reports_the_first_failure_in_the_order_asked() {
    let ids = measured_clocks();
    let outcomes = vec![Err(OsErrorCode { code: 1 }), Err(OsErrorCode { code: 22 })];
    let failure = assemble(&ids, &outcomes).unwrap_err();
    assert_eq!(failure.clock, ClockIdentifier::Tai);
    assert_eq!(failure.code, OsErrorCode { code: 1 });
}

#[test]
fn sequential_sampling_reads_each_clock_in_order() {
    let asked = RefCell::new(Vec::new());
    let ids = vec![ClockIdentifier::Realtime, ClockIdentifier::Tai];
    let result = sample_sequential(&ids, |id: ClockIdentifier| {
        asked.borrow_mut().push(id);
        match id {
            ClockIdentifier::Tai => Ok(ClockReading::new(137, 0)),
            ClockIdentifier::Realtime => Ok(ClockReading::new(100, 0)),
        }
    })
    .unwrap();
    assert_eq!(*asked.borrow(), ids);
    assert_eq!(result.len(), 2);
    assert_eq!(result.clock(0), Some(ClockIdentifier::Realtime));
    assert_eq!(result.reading(0), Some(ClockReading::new(100, 0)));
    assert_eq!(result.clock(1), Some(ClockIdentifier::Tai));
    assert_eq!(result.reading(1), Some(ClockReading::new(137, 0)));
}

#[test]
fn sequential_sampling_stops_at_the_first_failure() {
    let asked = RefCell::new(Vec::new());
    let ids = vec![ClockIdentifier::Realtime, ClockIdentifier::Tai, ClockIdentifier::Realtime];
    let failure = sample_sequential(&ids, |id: ClockIdentifier| {
        asked.borrow_mut().push(id);
        match id {
            ClockIdentifier::Tai => Err(OsErrorCode { code: 22 }),
            ClockIdentifier::Realtime => Ok(ClockReading::new(100, 0)),
        }
    })
    .unwrap_err();
    assert_eq!(failure.clock, ClockIdentifier::Tai);
    assert_eq!(failure.code, OsErrorCode { code: 22 });
    assert_eq!(*asked.borrow(), vec![ClockIdentifier::Realtime, ClockIdentifier::Tai]);
}

#[test]
fn outcomes_may_come_in_any_order() {
    let ids = measured_clocks();
    let tai = ClockReading::new(1_700_000_037, 0);
    let realtime = ClockReading::new(1_700_000_000, 0);

    let mut in_order = Collector::new(&ids);
    assert!(in_order.record(0, Ok(tai)));
    assert!(in_order.record(1, Ok(realtime)));

    let mut reversed = Collector::new(&ids);
    assert!(reversed.record(1, Ok(realtime)));
    assert!(!reversed.is_complete());
    assert!(reversed.finish().is_none());
    assert!(reversed.record(0, Ok(tai)));
    assert!(reversed.is_complete());

    for collector in [in_order, reversed] {
        let result = collector.finish().unwrap().unwrap();
        assert_eq!(result.len(), 2);
        assert_eq!(result.clock(0), Some(ClockIdentifier::Tai));
        assert_eq!(result.reading(0), Some(tai));
        assert_eq!(result.clock(1), Some(ClockIdentifier::Realtime));
        assert_eq!(result.reading(1), Some(realtime));
    }
}

#[test]
fn a_collector_takes_one_outcome_for_each_place() {
    let ids = measured_clocks();
    let mut collector = Collector::new(&ids);
    assert!(!collector.record(2, Ok(ClockReading::new(1, 0))));
    assert!(collector.record(0, Ok(ClockReading::new(1, 0))));
    assert!(!collector.record(0, Ok(ClockReading::new(9, 0))));
    assert!(collector.record(1, Ok(ClockReading::new(2, 0))));
    let result = collector.finish().unwrap().unwrap();
    assert_eq!(result.reading(0), Some(ClockReading::new(1, 0)));
    assert_eq!(result.reading(1), Some(ClockReading::new(2, 0)));
}

#[test]
fn one_failed_worker_fails_the_batch() {
    let ids = measured_clocks();
    let mut collector = Collector::new(&ids);
    assert!(collector.record(1, Err(OsErrorCode { code: 13 })));
    assert!(collector.record(0, Ok(ClockReading::new(1, 0))));
    let failure = collector.finish().unwrap().unwrap_err();
    assert_eq!(failure.clock, ClockIdentifier::Realtime);
    assert_eq!(failure.code.code, 13);
}

#[test]
fn an_empty_collector_is_complete() {
    let collector = Collector::new(&vec![]);
    assert!(collector.is_complete());
    assert_eq!(collector.finish().unwrap().unwrap().len(), 0);
}
