use composer::api;
use composer::events::{current_timestamp, Event, EventKind, LogLevel, LogStats, Packet};
use composer::jukebox::{plan_packet, Sample, ScheduledPlay, Stats, StatsReport, REPORT_EVERY, SAMPLE_COUNT};

#[test]
fn events_carry_kind_and_timestamp() {
    let e = Event::new(EventKind::TestTick);
    assert_eq!(e, Event { kind: EventKind::TestTick, timestamp: None });
    let e = Event::with_timestamp(EventKind::StdoutWrite { length: 12 }, 42);
    assert_eq!(e, Event { kind: EventKind::StdoutWrite { length: 12 }, timestamp: Some(42) });
    let e = Event::with_current_timestamp(EventKind::FileSystemRead);
    assert_eq!(e.kind, EventKind::FileSystemRead);
}

#[test]
fn wall_clock_reads_after_the_epoch() {
    let t = current_timestamp().unwrap();
    // Later than 2020-01-01.
    assert!(t > 1_577_836_800_000_000_000);
}

#[test]
fn packets_hold_their_events() {
    let p = Packet::from_event(Event::new(EventKind::FileSystemWrite));
    assert_eq!(p.events, vec![Event::new(EventKind::FileSystemWrite)]);
    let events = vec![Event::with_timestamp(EventKind::TestTick, 1), Event::with_timestamp(EventKind::TestTick, 2)];
    let p = Packet::new(events.clone());
    assert_eq!(p.events, events);
    assert!(Packet::default().events.is_empty());
    assert_eq!(LogStats::default(), LogStats {
        span: 0,
        error_records: 0,
        warn_records: 0,
        info_records: 0,
        debug_records: 0,
        trace_records: 0,
    });
    assert_eq!(api::Event::TestTick, api::Event::TestTick);
}

#[test]
fn catalogue_names_files_and_indices() {
    assert_eq!(Sample::all(), [Sample::Click, Sample::Clack]);
    assert_eq!(Sample::Click.filename(), "click.wav");
    assert_eq!(Sample::Clack.filename(), "clack.wav");
    assert_eq!(Sample::Click.index(), 0);
    assert_eq!(Sample::Clack.index(), 1);
    assert_eq!(SAMPLE_COUNT, 2);
}

#[test]
fn events_map_to_sounds() {
    assert_eq!(Sample::for_event(&EventKind::TestTick), Some(Sample::Clack));
    assert_eq!(Sample::for_event(&EventKind::StderrWrite { length: 3 }), Some(Sample::Click));
    assert_eq!(Sample::for_event(&EventKind::StdoutWrite { length: 3 }), Some(Sample::Click));
    assert_eq!(Sample::for_event(&EventKind::FileSystemRead), Some(Sample::Click));
    assert_eq!(Sample::for_event(&EventKind::FileSystemWrite), Some(Sample::Click));
    assert_eq!(Sample::for_event(&EventKind::Log { level: LogLevel::Warn }), None);
    assert_eq!(Sample::for_event(&EventKind::LogStats(LogStats::default())), None);
}

#[test]
fn packet_plan_stamps_missing_timestamps_with_arrival() {
    let p = Packet::new(vec![
        Event::with_timestamp(EventKind::TestTick, 10),
        Event::new(EventKind::FileSystemRead),
    ]);
    assert_eq!(plan_packet(&p, 99), Ok(vec![
        ScheduledPlay { sample: Sample::Clack, timestamp: 10 },
        ScheduledPlay { sample: Sample::Click, timestamp: 99 },
    ]));
    assert_eq!(plan_packet(&Packet::default(), 5), Ok(vec![]));
}

#[test]
fn packet_with_soundless_event_is_refused_whole() {
    let p = Packet::new(vec![
        Event::new(EventKind::TestTick),
        Event::new(EventKind::Log { level: LogLevel::Error }),
        Event::new(EventKind::LogStats(LogStats::default())),
    ]);
    assert_eq!(plan_packet(&p, 1), Err(1));
}

#[test]
fn stats_report_once_a_second() {
    let mut s = Stats::new(1_000);
    assert_eq!(s.record_event(100, 1_000 + REPORT_EVERY - 1), None);
    assert_eq!(s, Stats { since: 1_000, events: 1, total_bytes: 100 });
    let r = s.record_event(50, 1_000 + REPORT_EVERY);
    assert_eq!(r, Some(StatsReport { events: 2, total_bytes: 150, elapsed: REPORT_EVERY }));
    assert_eq!(s, Stats { since: 1_000 + REPORT_EVERY, events: 0, total_bytes: 0 });
}

#[test]
fn stats_totals_saturate() {
    let mut s = Stats { since: 0, events: usize::MAX, total_bytes: usize::MAX - 1 };
    assert_eq!(s.record_event(10, 5), None);
    assert_eq!(s, Stats { since: 0, events: usize::MAX, total_bytes: usize::MAX });
    // A clock reading before `since` counts as no time passed.
    let mut s = Stats::new(50);
    assert_eq!(s.record_event(1, 10), None);
}
