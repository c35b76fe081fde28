//! The fixed catalogue of sounds, and what the receiver decides for each
//! incoming batch of events.
use vstd::prelude::*;
use crate::events::{Event, EventKind, Packet};

verus! {

/// The sounds that events are played as.
#[derive(Clone, Copy, Debug, PartialEq, Eq, Structural, Hash)]
pub enum Sample {
    Click,
    Clack,
}

/// Number of sounds in the catalogue.
pub const SAMPLE_COUNT: usize = 2;

/// The sound an event of kind `kind` is played as; `None` for kinds that
/// have no sound.
pub open spec fn sample_of(kind: EventKind) -> Option<Sample> {
    match kind {
        EventKind::TestTick => Some(Sample::Clack),
        EventKind::StdoutWrite { .. } | EventKind::StderrWrite { .. } | EventKind::FileSystemRead
        | EventKind::FileSystemWrite => Some(Sample::Click),
        EventKind::Log { .. } | EventKind::LogStats(_) => None,
    }
}

/// The instant an event is played for: its own timestamp, or the instant
/// of its arrival, `now`.
pub open spec fn stamp_of(event: Event, now: u64) -> u64 {
    match event.timestamp {
        Some(t) => t,
        None => now,
    }
}

impl Sample {
    /// Every sound of the catalogue, each once, in the order of `index`.
    pub fn all() -> (r: [Sample; 2])
        ensures
            r@ == seq![Sample::Click, Sample::Clack],
    {
        [Sample::Click, Sample::Clack]
    }

    pub open spec fn spec_index(self) -> nat {
        match self {
            Sample::Click => 0,
            Sample::Clack => 1,
        }
    }

    /// Position of the sound in the catalogue: below `SAMPLE_COUNT`, and
    /// different for different sounds.
    pub fn index(&self) -> (r: usize)
        ensures
            r == self.spec_index(),
            r < SAMPLE_COUNT,
    {
        match self {
            Sample::Click => 0,
            Sample::Clack => 1,
        }
    }

    /// Name of the file the sound is loaded from.
    pub fn filename(&self) -> (r: &'static str)
        ensures
            *self == Sample::Click ==> r@ == "click.wav"@,
            *self == Sample::Clack ==> r@ == "clack.wav"@,
    {
        match self {
            Sample::Click => "click.wav",
            Sample::Clack => "clack.wav",
        }
    }

    /// The sound for an event of kind `kind`.
    pub fn for_event(kind: &EventKind) -> (r: Option<Sample>)
        ensures
            r == sample_of(*kind),
    {
        match kind {
            EventKind::TestTick => Some(Sample::Clack),
            EventKind::StdoutWrite { .. } | EventKind::StderrWrite { .. } | EventKind::FileSystemRead
            | EventKind::FileSystemWrite => Some(Sample::Click),
            EventKind::Log { .. } | EventKind::LogStats(_) => None,
        }
    }
}

/// A sound to play at a wall-clock instant.
#[derive(Clone, Copy, Debug, PartialEq, Eq, Structural)]
pub struct ScheduledPlay {
    pub sample: Sample,
    pub timestamp: u64,
}

/// The plays a batch of events asks for, one per event and in order, with
/// events that carry no timestamp stamped `now`. A batch holding an event
/// without a sound is refused whole: the result is then the position of the
/// first such event.
pub fn plan_packet(packet: &Packet, now: u64) -> (r: Result<Vec<ScheduledPlay>, usize>)
    ensures
        match r {
            Ok(plays) => {
                &&& plays@.len() == packet.events@.len()
                &&& forall|i: int|
                    0 <= i < plays@.len() ==> sample_of(packet.events@[i].kind) is Some && #[trigger] plays@[i] == (ScheduledPlay {
                        sample: sample_of(packet.events@[i].kind).unwrap(),
                        timestamp: stamp_of(packet.events@[i], now),
                    })
            },
            Err(k) => {
                &&& k < packet.events@.len()
                &&& sample_of(packet.events@[k as int].kind) is None
                &&& forall|i: int| 0 <= i < k ==> sample_of(#[trigger] packet.events@[i].kind) is Some
            },
        },
{
    let mut plays: Vec<ScheduledPlay> = Vec::new();
    let mut i: usize = 0;
    while i < packet.events.len()
        invariant
            0 <= i <= packet.events@.len(),
            plays@.len() == i,
            forall|j: int| 0 <= j < i ==> sample_of(#[trigger] packet.events@[j].kind) is Some,
            forall|j: int|
                0 <= j < i ==> sample_of(packet.events@[j].kind) is Some && #[trigger] plays@[j] == (ScheduledPlay {
                    sample: sample_of(packet.events@[j].kind).unwrap(),
                    timestamp: stamp_of(packet.events@[j], now),
                }),
        decreases packet.events.len() - i,
    {
        let event = &packet.events[i];
        match Sample::for_event(&event.kind) {
            Some(sample) => {
                let timestamp = match event.timestamp {
                    Some(t) => t,
                    None => now,
                };
                plays.push(ScheduledPlay { sample, timestamp });
            },
            None => {
                return Err(i);
            },
        }
        i = i + 1;
    }
    Ok(plays)
}

/// How often the receiver reports what it received, in nanoseconds.
pub const REPORT_EVERY: u64 = 1_000_000_000;

/// What was received since the previous report.
#[derive(Clone, Copy, Debug, PartialEq, Eq, Structural)]
pub struct StatsReport {
    pub events: usize,
    pub total_bytes: usize,
    /// Nanoseconds since the previous report.
    pub elapsed: u64,
}

/// Running totals of the datagrams received since the last report. Times
/// are read from a monotonic clock, in nanoseconds.
#[derive(Clone, Copy, Debug, PartialEq, Eq, Structural)]
pub struct Stats {
    pub since: u64,
    pub events: usize,
    pub total_bytes: usize,
}

impl Stats {
    /// Totals that start at `now`.
    pub fn new(now: u64) -> (r: Stats)
        ensures
            r == (Stats { since: now, events: 0, total_bytes: 0 }),
    {
        Stats { since: now, events: 0, total_bytes: 0 }
    }

    /// Counts a datagram of `bytes_received` bytes that arrived at `now`.
    /// Once a report period has passed since the last report, returns the
    /// totals and starts new ones from `now`. Totals stay at the top of
    /// their range once there.
    pub fn record_event(&mut self, bytes_received: usize, now: u64) -> (r: Option<StatsReport>)
        ensures
            ({
                let events = if old(self).events + 1 <= usize::MAX { old(self).events + 1 } else { usize::MAX as int };
                let bytes = if old(self).total_bytes + bytes_received <= usize::MAX {
                    old(self).total_bytes + bytes_received
                } else {
                    usize::MAX as int
                };
                let elapsed = if now >= old(self).since { now - old(self).since } else { 0 };
                if elapsed >= REPORT_EVERY {
                    &&& r == Some(StatsReport { events: events as usize, total_bytes: bytes as usize, elapsed: elapsed as u64 })
                    &&& *final(self) == Stats { since: now, events: 0, total_bytes: 0 }
                } else {
                    &&& r is None
                    &&& *final(self) == Stats { since: old(self).since, events: events as usize, total_bytes: bytes as usize }
                }
            }),
    {
        self.events = self.events.saturating_add(1);
        self.total_bytes = self.total_bytes.saturating_add(bytes_received);
        let elapsed = now.saturating_sub(self.since);
        if elapsed >= REPORT_EVERY {
            let report = StatsReport { events: self.events, total_bytes: self.total_bytes, elapsed };
            self.since = now;
            self.events = 0;
            self.total_bytes = 0;
            Some(report)
        } else {
            None
        }
    }
}

} // verus!
