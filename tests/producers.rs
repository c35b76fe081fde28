use composer::dtrace::{consume_result, Error, ProbeData, ProgramStatus, WORKSTATUS_DONE, WORKSTATUS_OKAY};
use composer::events::{Event, EventKind, LogLevel, LogStats};
use composer::log_probe::{add_aggregate_record, tick_deadline, AggregatedReporter, AggregatorMessage, IndividualReporter};
use composer::ptrace_probe::{syscall_event, write_event};
use composer::test_probe::{rollercoaster_delays, BurstSchedule};

#[test]
fn aggregate_record_counts_by_level() {
    let mut s = LogStats::default();
    add_aggregate_record(&mut s, LogLevel::Error);
    add_aggregate_record(&mut s, LogLevel::Warn);
    add_aggregate_record(&mut s, LogLevel::Warn);
    add_aggregate_record(&mut s, LogLevel::Info);
    add_aggregate_record(&mut s, LogLevel::Debug);
    add_aggregate_record(&mut s, LogLevel::Trace);
    assert_eq!(s, LogStats { span: 0, error_records: 1, warn_records: 2, info_records: 1, debug_records: 1, trace_records: 1 });
    let mut full = LogStats { error_records: u32::MAX, ..LogStats::default() };
    add_aggregate_record(&mut full, LogLevel::Error);
    assert_eq!(full.error_records, u32::MAX);
}

#[test]
fn aggregated_reporter_hands_out_counts_per_tick() {
    let mut r = AggregatedReporter::new(100);
    assert!(r.handle(AggregatorMessage::AddRecord(LogLevel::Info), 150).is_none());
    assert!(r.handle(AggregatorMessage::AddRecord(LogLevel::Info), 160).is_none());
    let p = r.handle(AggregatorMessage::Tick, 400).unwrap();
    assert_eq!(p.events, vec![Event::new(EventKind::LogStats(LogStats {
        span: 300,
        info_records: 2,
        ..LogStats::default()
    }))]);
    assert_eq!(r, AggregatedReporter { stats: LogStats::default(), report_start: 400 });
}

#[test]
fn individual_reporter_batches_records() {
    let mut r = IndividualReporter::new();
    assert!(r.handle(AggregatorMessage::AddRecord(LogLevel::Error), 10).is_none());
    assert!(r.handle(AggregatorMessage::AddRecord(LogLevel::Trace), 20).is_none());
    let p = r.handle(AggregatorMessage::Tick, 30).unwrap();
    assert_eq!(p.events, vec![
        Event::with_timestamp(EventKind::Log { level: LogLevel::Error }, 10),
        Event::with_timestamp(EventKind::Log { level: LogLevel::Trace }, 20),
    ]);
    assert!(r.events.is_empty());
    assert!(r.handle(AggregatorMessage::Tick, 40).unwrap().events.is_empty());
}

#[test]
fn consume_result_maps_work_status() {
    let probe = ProbeData::new(3, "syscall".to_string(), "".to_string(), "read".to_string(), "entry".to_string());
    assert_eq!(probe.cpu_id, 3);
    assert_eq!(probe.function_name, "read");
    let r = consume_result(WORKSTATUS_OKAY, vec![probe], "unused".to_string()).unwrap();
    assert_eq!(r.status, ProgramStatus::Ongoing);
    assert_eq!(r.probes.len(), 1);
    let r = consume_result(WORKSTATUS_DONE, vec![], "unused".to_string()).unwrap();
    assert_eq!(r.status, ProgramStatus::Done);
    match consume_result(-1, vec![], "bad handle".to_string()) {
        Err(Error::OperationError(m)) => assert_eq!(m, "bad handle"),
        other => panic!("unexpected {:?}", other),
    }
}

#[test]
fn rollercoaster_speeds_up_then_slows_down() {
    let d = rollercoaster_delays();
    assert_eq!(d.len(), 78);
    assert_eq!(&d[..3], &[195, 190, 185]);
    assert_eq!(&d[37..41], &[10, 5, 5, 10]);
    assert_eq!(d[77], 195);
}

#[test]
fn burst_events_are_evenly_spaced() {
    assert_eq!(BurstSchedule::new(1_000, 500, 0), None);
    assert_eq!(BurstSchedule::new(100, 500, 5), None);
    let mut s = BurstSchedule::new(10_000, 500, 4).unwrap();
    assert_eq!(s, BurstSchedule { event_start: 9_500, event_period: 125, events_per_burst: 4, next: 0 });
    let p = s.next_packet().unwrap();
    let stamps: Vec<Option<u64>> = p.events.iter().map(|e| e.timestamp).collect();
    assert_eq!(stamps, vec![Some(9_500), Some(9_625), Some(9_750), Some(9_875)]);
    assert!(p.events.iter().all(|e| e.kind == EventKind::TestTick));
    let p = s.next_packet().unwrap();
    assert_eq!(p.events[0].timestamp, Some(10_000));
    assert_eq!(s.next, 8);
}

#[test]
fn burst_past_the_time_range_stops() {
    let mut s = BurstSchedule { event_start: u64::MAX - 10, event_period: 6, events_per_burst: 3, next: 0 };
    assert!(s.next_packet().is_none());
    assert_eq!(s.next, 0);
}

#[test]
fn only_console_writes_become_events() {
    assert_eq!(write_event(true, 1, 12), Some(Event::new(EventKind::StdoutWrite { length: 12 })));
    assert_eq!(write_event(true, 2, 3), Some(Event::new(EventKind::StderrWrite { length: 3 })));
    assert_eq!(write_event(true, 5, 3), None);
    assert_eq!(write_event(false, 1, 3), None);
}

#[test]
fn syscall_numbers_are_looked_up() {
    // On x86_64 Linux, write is call 1 and read is call 0.
    assert_eq!(syscall_event(1, 1, 12), Some(Event::new(EventKind::StdoutWrite { length: 12 })));
    assert_eq!(syscall_event(1, 2, 4), Some(Event::new(EventKind::StderrWrite { length: 4 })));
    assert_eq!(syscall_event(0, 1, 12), None);
    assert_eq!(syscall_event(1_000_000, 1, 12), None);
}

#[test]
fn tick_deadlines_are_whole_periods_apart() {
    assert_eq!(tick_deadline(100, 25, 0), Some(100));
    assert_eq!(tick_deadline(100, 25, 4), Some(200));
    assert_eq!(tick_deadline(u64::MAX - 10, 5, 2), Some(u64::MAX));
    assert_eq!(tick_deadline(u64::MAX - 10, 5, 3), None);
    assert_eq!(tick_deadline(0, u64::MAX, 2), None);
}
