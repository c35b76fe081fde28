//! The messages that event producers send: batches of timestamped events.
use vstd::prelude::*;
use std::time::UNIX_EPOCH;

verus! {

/// Severity of a log record.
#[derive(Clone, Copy, Debug, PartialEq, Eq, Structural)]
pub enum LogLevel {
    Error,
    Warn,
    Info,
    Debug,
    Trace,
}

/// Log records counted by severity over a stretch of time.
#[derive(Clone, Copy, Debug, PartialEq, Eq, Structural)]
pub struct LogStats {
    /// Length of the stretch, in nanoseconds.
    pub span: u64,
    pub error_records: u32,
    pub warn_records: u32,
    pub info_records: u32,
    pub debug_records: u32,
    pub trace_records: u32,
}

/// No records, over no time.
pub open spec fn empty_log_stats() -> LogStats {
    LogStats { span: 0, error_records: 0, warn_records: 0, info_records: 0, debug_records: 0, trace_records: 0 }
}

impl Default for LogStats {
    fn default() -> (r: LogStats)
        ensures
            r == empty_log_stats(),
    {
        LogStats { span: 0, error_records: 0, warn_records: 0, info_records: 0, debug_records: 0, trace_records: 0 }
    }
}

/// What happened.
#[derive(Clone, Copy, Debug, PartialEq, Eq, Structural)]
pub enum EventKind {
    TestTick,
    /// A write() of `length` bytes to stdout.
    StdoutWrite { length: usize },
    /// A write() of `length` bytes to stderr.
    StderrWrite { length: usize },
    /// A read() call.
    FileSystemRead,
    /// A write() to a file other than stdout and stderr.
    FileSystemWrite,
    /// A log record at the given severity.
    Log { level: LogLevel },
    /// Log records aggregated over a stretch of time.
    LogStats(LogStats),
}

/// One event, with the wall-clock instant it happened at where the producer
/// knows it (nanoseconds since the UNIX epoch).
#[derive(Clone, Copy, Debug, PartialEq, Eq, Structural)]
pub struct Event {
    pub kind: EventKind,
    pub timestamp: Option<u64>,
}

impl Event {
    /// An event without a timestamp: the receiver stamps it on arrival.
    pub fn new(kind: EventKind) -> (r: Event)
        ensures
            r.kind == kind,
            r.timestamp is None,
    {
        let timestamp = None;
        Event { kind, timestamp }
    }

    pub fn with_timestamp(kind: EventKind, timestamp: u64) -> (r: Event)
        ensures
            r.kind == kind,
            r.timestamp == Some(timestamp),
    {
        let timestamp = Some(timestamp);
        Event { kind, timestamp }
    }

    /// An event stamped with the wall clock as read now; without a timestamp
    /// where the clock cannot be read as nanoseconds since the UNIX epoch.
    pub fn with_current_timestamp(kind: EventKind) -> (r: Event)
        ensures
            r.kind == kind,
    {
        Event { kind, timestamp: current_timestamp() }
    }
}

/// A batch of events that a producer collected over some time window.
#[derive(Clone, Debug)]
pub struct Packet {
    pub events: Vec<Event>,
}

impl Default for Packet {
    fn default() -> (r: Packet)
        ensures
            r.events@ == Seq::<Event>::empty(),
    {
        Packet { events: Vec::new() }
    }
}

impl Packet {
    pub fn new(events: Vec<Event>) -> (r: Packet)
        ensures
            r.events@ == events@,
    {
        Packet { events }
    }

    pub fn from_event(event: Event) -> (r: Packet)
        ensures
            r.events@ == seq![event],
    {
        let mut events: Vec<Event> = Vec::new();
        events.push(event);
        Packet { events }
    }
}

/// Relies on `SystemTime::elapsed`, called on `UNIX_EPOCH`: the time from the
/// epoch to the wall clock's present reading, in nanoseconds; `None` where
/// the clock reads before the epoch or the distance does not fit in 64 bits.
/// The value depends on the moment of the call, so nothing is said of it.
#[verifier::external_body]
pub fn current_timestamp() -> (r: Option<u64>) {
    match UNIX_EPOCH.elapsed() {
        Ok(d) => u64::try_from(d.as_nanos()).ok(),
        Err(_) => None,
    }
}

} // verus!
