//! Decisions of the log producer: log records are counted by severity, or
//! collected one by one, and handed out as a batch at each tick.
use vstd::prelude::*;
use crate::events::{empty_log_stats, Event, EventKind, LogLevel, LogStats, Packet};

verus! {

#[derive(Clone, Debug)]
pub enum LogProbeError {
    NetworkError(String),
}

/// How log records are reported.
#[derive(Clone, Copy, Debug, PartialEq, Eq, Structural)]
pub enum Mode {
    /// Counted by severity, one event per tick.
    Aggregated,
    /// One event per record, batched per tick.
    Individual,
}

/// What the reporting thread is told.
#[derive(Clone, Copy, Debug, PartialEq, Eq, Structural)]
pub enum AggregatorMessage {
    AddRecord(LogLevel),
    Tick,
}

/// A count raised by one, held at the top of its range.
pub open spec fn bumped(c: u32) -> u32 {
    if c < u32::MAX { (c + 1) as u32 } else { c }
}

/// `stats` with one more record of severity `level`.
pub open spec fn with_record(stats: LogStats, level: LogLevel) -> LogStats {
    match level {
        LogLevel::Error => LogStats { error_records: bumped(stats.error_records), ..stats },
        LogLevel::Warn => LogStats { warn_records: bumped(stats.warn_records), ..stats },
        LogLevel::Info => LogStats { info_records: bumped(stats.info_records), ..stats },
        LogLevel::Debug => LogStats { debug_records: bumped(stats.debug_records), ..stats },
        LogLevel::Trace => LogStats { trace_records: bumped(stats.trace_records), ..stats },
    }
}

/// Counts one record of severity `record_level`.
pub fn add_aggregate_record(log_stats: &mut LogStats, record_level: LogLevel)
    ensures
        *final(log_stats) == with_record(*old(log_stats), record_level),
{
    match record_level {
        LogLevel::Error => log_stats.error_records = log_stats.error_records.saturating_add(1),
        LogLevel::Warn => log_stats.warn_records = log_stats.warn_records.saturating_add(1),
        LogLevel::Info => log_stats.info_records = log_stats.info_records.saturating_add(1),
        LogLevel::Debug => log_stats.debug_records = log_stats.debug_records.saturating_add(1),
        LogLevel::Trace => log_stats.trace_records = log_stats.trace_records.saturating_add(1),
    }
}

/// State of the reporter in aggregated mode. Times are read from a
/// monotonic clock, in nanoseconds.
#[derive(Clone, Copy, Debug, PartialEq, Eq, Structural)]
pub struct AggregatedReporter {
    pub stats: LogStats,
    pub report_start: u64,
}

impl AggregatedReporter {
    pub fn new(now: u64) -> (r: AggregatedReporter)
        ensures
            r.stats == empty_log_stats(),
            r.report_start == now,
    {
        AggregatedReporter { stats: LogStats::default(), report_start: now }
    }

    /// Takes in one message at `now`. A record is counted; a tick hands out
    /// the counts since the last tick as one event spanning the time since
    /// then, and starts counting anew from `now`.
    pub fn handle(&mut self, message: AggregatorMessage, now: u64) -> (r: Option<Packet>)
        ensures
            match message {
                AggregatorMessage::AddRecord(level) => {
                    &&& r is None
                    &&& final(self).stats == with_record(old(self).stats, level)
                    &&& final(self).report_start == old(self).report_start
                },
                AggregatorMessage::Tick => {
                    let span = if now >= old(self).report_start { now - old(self).report_start } else { 0 };
                    &&& r is Some
                    &&& r.unwrap().events@ == seq![Event {
                        kind: EventKind::LogStats(LogStats { span: span as u64, ..old(self).stats }),
                        timestamp: None,
                    }]
                    &&& final(self).stats == empty_log_stats()
                    &&& final(self).report_start == now
                },
            },
    {
        match message {
            AggregatorMessage::AddRecord(level) => {
                add_aggregate_record(&mut self.stats, level);
                None
            },
            AggregatorMessage::Tick => {
                self.stats.span = now.saturating_sub(self.report_start);
                let event = Event::new(EventKind::LogStats(self.stats));
                let packet = Packet::from_event(event);
                self.stats = LogStats::default();
                self.report_start = now;
                Some(packet)
            },
        }
    }
}

/// State of the reporter in individual mode: the events since the last tick.
pub struct IndividualReporter {
    pub events: Vec<Event>,
}

impl IndividualReporter {
    pub fn new() -> (r: IndividualReporter)
        ensures
            r.events@ == Seq::<Event>::empty(),
    {
        IndividualReporter { events: Vec::new() }
    }

    /// Takes in one message. A record becomes an event of its own, stamped
    /// `now` (nanoseconds since the UNIX epoch); a tick hands out the events
    /// since the last tick.
    pub fn handle(&mut self, message: AggregatorMessage, now: u64) -> (r: Option<Packet>)
        ensures
            match message {
                AggregatorMessage::AddRecord(level) => {
                    &&& r is None
                    &&& final(self).events@ == old(self).events@.push(
                        Event { kind: EventKind::Log { level }, timestamp: Some(now) },
                    )
                },
                AggregatorMessage::Tick => {
                    &&& r is Some
                    &&& r.unwrap().events@ == old(self).events@
                    &&& final(self).events@ == Seq::<Event>::empty()
                },
            },
    {
        match message {
            AggregatorMessage::AddRecord(level) => {
                let event = Event::with_timestamp(EventKind::Log { level }, now);
                self.events.push(event);
                None
            },
            AggregatorMessage::Tick => {
                let mut events: Vec<Event> = Vec::new();
                core::mem::swap(&mut events, &mut self.events);
                Some(Packet::new(events))
            },
        }
    }
}

/// The instant of tick `i` of a ticker started at `start` with period
/// `period` (nanoseconds of a monotonic clock); `None` where it does not fit
/// in 64 bits.
pub fn tick_deadline(start: u64, period: u64, i: u64) -> (r: Option<u64>)
    ensures
        start + i * period <= u64::MAX ==> r == Some((start + i * period) as u64),
        start + i * period > u64::MAX ==> r is None,
{
    let offset = match i.checked_mul(period) {
        Some(o) => o,
        None => {
            assert(start + i * period > u64::MAX) by (nonlinear_arith)
                requires i * period > u64::MAX, start >= 0;
            return None;
        },
    };
    start.checked_add(offset)
}

} // verus!
