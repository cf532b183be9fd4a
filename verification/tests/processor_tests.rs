use aodata::processor::Action;
use aodata::processor::BatchProcessor;
use aodata::processor::CycleReport;
use aodata::processor::Event;
use aodata::processor::Phase;
use aodata::processor::FLUSH_THRESHOLD;
use aodata::processor::POLL_INTERVAL_MILLIS;

#[test]
fn new_processor_is_idle() {
    let processor = BatchProcessor::new(FLUSH_THRESHOLD);
    assert_eq!(processor.phase, Phase::Idle);
    assert_eq!(processor.threshold, 1000);
    assert_eq!(processor.total_decode_errors, 0);
    assert_eq!(POLL_INTERVAL_MILLIS, 100);
}

#[test]
fn below_the_threshold_the_processor_sleeps() {
    let mut processor = BatchProcessor::new(3);
    for size in [0usize, 1, 2, 2, 0] {
        assert_eq!(processor.step(Event::Polled { size }), Action::Sleep);
        assert_eq!(processor, BatchProcessor::new(3));
    }
}

#[test]
fn at_the_threshold_the_processor_drains() {
    let mut processor = BatchProcessor::new(3);
    assert_eq!(processor.step(Event::Polled { size: 3 }), Action::Drain);
    assert_eq!(processor.phase, Phase::Draining);
    let mut processor = BatchProcessor::new(3);
    assert_eq!(processor.step(Event::Polled { size: 1000 }), Action::Drain);
}

#[test]
fn a_cycle_runs_through_every_phase() {
    let mut processor = BatchProcessor::new(2);
    assert_eq!(processor.step(Event::Polled { size: 5 }), Action::Drain);
    assert_eq!(processor.step(Event::Drained { messages: 5 }), Action::Prepare);
    assert_eq!(processor.phase, Phase::Deduplicating);
    assert_eq!(processor.step(Event::Prepared { rows: 3, decode_errors: 1 }), Action::Upsert);
    assert_eq!(processor.phase, Phase::Upserting);
    assert_eq!(
        processor.step(Event::Committed { rows_affected: 3 }),
        Action::Report(CycleReport {
            drained: 5,
            rows: 3,
            decode_errors: 1,
            rows_affected: Some(3)
        })
    );
    assert_eq!(processor.phase, Phase::Idle);
    assert_eq!(processor.total_decode_errors, 1);
}

#[test]
fn a_rolled_back_batch_is_reported_and_not_sent_again() {
    let mut processor = BatchProcessor::new(1);
    processor.step(Event::Polled { size: 4 });
    processor.step(Event::Drained { messages: 4 });
    processor.step(Event::Prepared { rows: 4, decode_errors: 0 });
    assert_eq!(
        processor.step(Event::RolledBack),
        Action::Report(CycleReport { drained: 4, rows: 4, decode_errors: 0, rows_affected: None })
    );
    assert_eq!(processor.phase, Phase::Idle);
    assert_eq!(processor.step(Event::Polled { size: 0 }), Action::Sleep);
}

#[test]
fn events_out_of_turn_change_nothing() {
    let mut processor = BatchProcessor::new(1);
    let idle = processor;
    assert_eq!(processor.step(Event::Drained { messages: 4 }), Action::Stay);
    assert_eq!(processor.step(Event::Prepared { rows: 1, decode_errors: 1 }), Action::Stay);
    assert_eq!(processor.step(Event::Committed { rows_affected: 1 }), Action::Stay);
    assert_eq!(processor.step(Event::RolledBack), Action::Stay);
    assert_eq!(processor, idle);
    processor.step(Event::Polled { size: 1 });
    let draining = processor;
    assert_eq!(processor.step(Event::Polled { size: 9 }), Action::Stay);
    assert_eq!(processor.step(Event::Committed { rows_affected: 1 }), Action::Stay);
    assert_eq!(processor, draining);
}

#[test]
fn one_upsert_per_crossing() {
    let mut processor = BatchProcessor::new(2);
    let sizes = [0usize, 1, 2, 0, 5, 1, 1, 3];
    let mut drains = 0;
    let mut upserts = 0;
    let mut crossings = 0;
    for size in sizes {
        if size >= 2 {
            crossings += 1;
        }
        if processor.step(Event::Polled { size }) == Action::Drain {
            drains += 1;
            assert_eq!(processor.step(Event::Drained { messages: size }), Action::Prepare);
            if processor.step(Event::Prepared { rows: size, decode_errors: 0 }) == Action::Upsert {
                upserts += 1;
            }
            processor.step(Event::Committed { rows_affected: size as u64 });
        }
    }
    assert_eq!(crossings, 3);
    assert_eq!(drains, 3);
    assert_eq!(upserts, 3);
}

#[test]
fn the_error_total_stops_at_its_largest_value() {
    let mut processor = BatchProcessor::new(1);
    processor.total_decode_errors = u64::MAX - 1;
    processor.step(Event::Polled { size: 1 });
    processor.step(Event::Drained { messages: 1 });
    processor.step(Event::Prepared { rows: 0, decode_errors: 5 });
    assert_eq!(processor.total_decode_errors, u64::MAX);
    assert_eq!(processor.decode_errors, 5);
}

#[test]
fn a_threshold_of_zero_always_drains() {
    let mut processor = BatchProcessor::new(0);
    assert_eq!(processor.step(Event::Polled { size: 0 }), Action::Drain);
}
