//! Schedules of the synthetic event producer.
use vstd::prelude::*;
use vstd::arithmetic::mul::lemma_mul_inequality;
use crate::events::{Event, EventKind, Packet};

verus! {

/// Number of distinct pauses in each half of the rollercoaster cycle.
pub const ROLLERCOASTER_STEPS: usize = 39;

/// One cycle of pauses between events, in milliseconds, that speeds up from
/// 195 ms to 5 ms in steps of 5 and slows down again.
pub fn rollercoaster_delays() -> (r: Vec<u64>)
    ensures
        r@.len() == 2 * ROLLERCOASTER_STEPS,
        forall|i: int| 0 <= i < ROLLERCOASTER_STEPS ==> #[trigger] r@[i] == 195 - 5 * i,
        forall|i: int|
            ROLLERCOASTER_STEPS <= i < 2 * ROLLERCOASTER_STEPS ==> #[trigger] r@[i] == 5 + 5 * (i - ROLLERCOASTER_STEPS),
{
    let mut r: Vec<u64> = Vec::new();
    let mut i: usize = 0;
    while i < ROLLERCOASTER_STEPS
        invariant
            0 <= i <= ROLLERCOASTER_STEPS,
            r@.len() == i,
            forall|j: int| 0 <= j < i ==> #[trigger] r@[j] == 195 - 5 * j,
        decreases ROLLERCOASTER_STEPS - i,
    {
        r.push(195 - 5 * i as u64);
        i = i + 1;
    }
    let mut k: usize = 0;
    while k < ROLLERCOASTER_STEPS
        invariant
            0 <= k <= ROLLERCOASTER_STEPS,
            r@.len() == ROLLERCOASTER_STEPS + k,
            forall|j: int| 0 <= j < ROLLERCOASTER_STEPS ==> #[trigger] r@[j] == 195 - 5 * j,
            forall|j: int|
                ROLLERCOASTER_STEPS <= j < ROLLERCOASTER_STEPS + k ==> #[trigger] r@[j] == 5 + 5 * (j - ROLLERCOASTER_STEPS),
        decreases ROLLERCOASTER_STEPS - k,
    {
        r.push(5 + 5 * k as u64);
        k = k + 1;
    }
    r
}

/// Events evenly spaced in time, handed out in bursts. Event `n` happens at
/// `event_start + n × event_period` (nanoseconds since the UNIX epoch).
#[derive(Clone, Copy, Debug, PartialEq, Eq, Structural)]
pub struct BurstSchedule {
    pub event_start: u64,
    pub event_period: u64,
    pub events_per_burst: u32,
    /// Number of the next event to hand out.
    pub next: u64,
}

/// Instant of event `n` of `s`.
pub open spec fn event_time(s: BurstSchedule, n: int) -> int {
    s.event_start + n * s.event_period
}

/// Whether every event of the next burst of `s`, and the burst after it,
/// have numbers within 64 bits, and the events of the next burst instants
/// within 64 bits.
pub open spec fn next_burst_fits(s: BurstSchedule) -> bool {
    &&& s.next + s.events_per_burst <= u64::MAX
    &&& s.events_per_burst > 0 ==> event_time(s, s.next + s.events_per_burst - 1) <= u64::MAX
}

impl BurstSchedule {
    /// A schedule of `events_per_burst` events per `burst_period`, whose
    /// events are dated one burst period before `now`, so that none lies in
    /// the future when it is sent. `None` where there are no events per
    /// burst, or `now` lies less than a burst period after the epoch.
    pub fn new(now: u64, burst_period: u64, events_per_burst: u32) -> (r: Option<BurstSchedule>)
        ensures
            events_per_burst == 0 || now < burst_period <==> r is None,
            r matches Some(s) ==> s == (BurstSchedule {
                event_start: (now - burst_period) as u64,
                event_period: burst_period / events_per_burst as u64,
                events_per_burst,
                next: 0,
            }),
    {
        if events_per_burst == 0 || now < burst_period {
            return None;
        }
        Some(BurstSchedule {
            event_start: now - burst_period,
            event_period: burst_period / events_per_burst as u64,
            events_per_burst,
            next: 0,
        })
    }

    /// The next burst: a packet of the next `events_per_burst` tick events,
    /// each dated by its number. `None`, with nothing changed, where a number
    /// or an instant would not fit in 64 bits.
    pub fn next_packet(&mut self) -> (r: Option<Packet>)
        ensures
            next_burst_fits(*old(self)) <==> r is Some,
            r matches Some(p) ==> {
                &&& p.events@.len() == old(self).events_per_burst
                &&& forall|i: int|
                    0 <= i < p.events@.len() ==> #[trigger] p.events@[i] == (Event {
                        kind: EventKind::TestTick,
                        timestamp: Some(event_time(*old(self), old(self).next + i) as u64),
                    })
                &&& *final(self) == BurstSchedule { next: (old(self).next + old(self).events_per_burst) as u64, ..*old(self) }
            },
            r is None ==> *final(self) == *old(self),
    {
        let count = self.events_per_burst as u64;
        if count == 0 {
            return Some(Packet::new(Vec::new()));
        }
        if self.next > u64::MAX - count {
            return None;
        }
        let last = self.next + (count - 1);
        let offset = match last.checked_mul(self.event_period) {
            Some(o) => o,
            None => {
                assert(event_time(*self, last as int) > u64::MAX) by (nonlinear_arith)
                    requires last * self.event_period > u64::MAX;
                return None;
            },
        };
        if self.event_start > u64::MAX - offset {
            return None;
        }
        let mut events: Vec<Event> = Vec::new();
        let mut i: u64 = 0;
        while i < count
            invariant
                count == self.events_per_burst,
                0 <= i <= count,
                last == self.next + count - 1,
                self.event_start + last * self.event_period <= u64::MAX,
                events@.len() == i,
                forall|j: int|
                    0 <= j < i ==> #[trigger] events@[j] == (Event {
                        kind: EventKind::TestTick,
                        timestamp: Some(event_time(*self, self.next + j) as u64),
                    }),
            decreases count - i,
        {
            let n = self.next + i;
            proof {
                lemma_mul_inequality(n as int, last as int, self.event_period as int);
            }
            let t = self.event_start + n * self.event_period;
            events.push(Event::with_timestamp(EventKind::TestTick, t));
            i = i + 1;
        }
        self.next = self.next + count;
        Some(Packet::new(events))
    }
}

} // verus!
