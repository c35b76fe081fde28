//! Mapping the audio device's callback clock onto wall-clock time.
use vstd::prelude::*;

verus! {

/// The two instants that the audio device reports with each output callback,
/// in nanoseconds of the device's own clock.
#[derive(Clone, Copy, Debug, PartialEq, Eq, Structural)]
pub struct StreamTimestamp {
    /// When the callback was invoked.
    pub callback: u64,
    /// When the buffer filled by this callback will be played.
    pub playback: u64,
}

/// Ties the device clock to wall-clock time: at device instant `callback`
/// the wall clock read `realtime` (nanoseconds since the UNIX epoch).
#[derive(Clone, Copy, Debug, PartialEq, Eq, Structural)]
pub struct StreamAnchor {
    pub realtime: u64,
    pub callback: u64,
}

/// The wall-clock instant of device instant `t`, as seen through `anchor`.
pub open spec fn wallclock_of(anchor: StreamAnchor, t: int) -> int {
    anchor.realtime + (t - anchor.callback)
}

/// The anchor in force after a callback at `timestamp`, when the wall clock
/// reads `now`: the first callback sets it, and so does a callback whose
/// device instant lies before the anchored one.
pub open spec fn next_anchor(prev: Option<StreamAnchor>, now: u64, timestamp: StreamTimestamp) -> StreamAnchor {
    match prev {
        Some(a) if a.callback <= timestamp.callback => a,
        _ => StreamAnchor { realtime: now, callback: timestamp.callback },
    }
}

/// Whether a callback at `timestamp` discards an existing anchor because the
/// device clock went backwards.
pub open spec fn is_reanchor(prev: Option<StreamAnchor>, timestamp: StreamTimestamp) -> bool {
    match prev {
        Some(a) => a.callback > timestamp.callback,
        None => false,
    }
}

/// The anchor after the callbacks `timestamps[0..k]`, made while the wall
/// clock read `nows[0..k]`, starting from `prev`.
pub open spec fn anchor_after(
    prev: Option<StreamAnchor>,
    nows: Seq<u64>,
    timestamps: Seq<StreamTimestamp>,
    k: int,
) -> Option<StreamAnchor>
    decreases k,
{
    if k <= 0 {
        prev
    } else {
        Some(next_anchor(anchor_after(prev, nows, timestamps, k - 1), nows[k - 1], timestamps[k - 1]))
    }
}

/// How many of the callbacks `timestamps[0..k]` replaced an anchor because
/// the device clock went back.
pub open spec fn reanchor_count(
    prev: Option<StreamAnchor>,
    nows: Seq<u64>,
    timestamps: Seq<StreamTimestamp>,
    k: int,
) -> nat
    decreases k,
{
    if k <= 0 {
        0
    } else {
        reanchor_count(prev, nows, timestamps, k - 1) + if is_reanchor(
            anchor_after(prev, nows, timestamps, k - 1),
            timestamps[k - 1],
        ) {
            1nat
        } else {
            0nat
        }
    }
}

/// A stream whose callback instants never decrease, but for one jump back at
/// callback `j` to before the first callback's instant, is anchored anew
/// exactly once, at that callback. From then on, the buffer of each callback
/// `i` plays at the wall-clock reading of callback `j` advanced by the device
/// time from callback `j` to callback `i`: never before that reading.
pub proof fn lemma_single_backward_jump(nows: Seq<u64>, timestamps: Seq<StreamTimestamp>, j: int)
    requires
        nows.len() == timestamps.len(),
        0 < j < timestamps.len(),
        timestamps[j].callback < timestamps[0].callback,
        forall|a: int, b: int| 0 <= a <= b < j ==> timestamps[a].callback <= timestamps[b].callback,
        forall|a: int, b: int|
            j <= a <= b < timestamps.len() ==> timestamps[a].callback <= timestamps[b].callback,
    ensures
        reanchor_count(None, nows, timestamps, timestamps.len() as int) == 1,
        anchor_after(None, nows, timestamps, j + 1) == Some(
            StreamAnchor { realtime: nows[j], callback: timestamps[j].callback },
        ),
        forall|i: int|
            j <= i < timestamps.len() ==> {
                let a = #[trigger] anchor_after(None, nows, timestamps, i + 1).unwrap();
                &&& a.callback <= timestamps[i].callback
                &&& wallclock_of(a, timestamps[i].callback as int) == nows[j] + (timestamps[i].callback
                    - timestamps[j].callback)
                &&& wallclock_of(a, timestamps[i].callback as int) >= nows[j]
            },
{
    lemma_anchor_held_after_jump(nows, timestamps, j, timestamps.len() as int);
    lemma_anchor_held_after_jump(nows, timestamps, j, j + 1);
    assert forall|i: int| j <= i < timestamps.len() implies {
        let a = #[trigger] anchor_after(None, nows, timestamps, i + 1).unwrap();
        &&& a.callback <= timestamps[i].callback
        &&& wallclock_of(a, timestamps[i].callback as int) == nows[j] + (timestamps[i].callback
            - timestamps[j].callback)
        &&& wallclock_of(a, timestamps[i].callback as int) >= nows[j]
    } by {
        lemma_anchor_held_after_jump(nows, timestamps, j, i + 1);
        assert(timestamps[j].callback <= timestamps[i].callback);
    }
}

/// Before the jump the first anchor holds and nothing is anchored anew.
proof fn lemma_anchor_held_before_jump(nows: Seq<u64>, timestamps: Seq<StreamTimestamp>, j: int, k: int)
    requires
        nows.len() == timestamps.len(),
        0 < j < timestamps.len(),
        1 <= k <= j,
        forall|a: int, b: int| 0 <= a <= b < j ==> timestamps[a].callback <= timestamps[b].callback,
    ensures
        anchor_after(None, nows, timestamps, k) == Some(
            StreamAnchor { realtime: nows[0], callback: timestamps[0].callback },
        ),
        reanchor_count(None, nows, timestamps, k) == 0,
    decreases k,
{
    if k > 1 {
        lemma_anchor_held_before_jump(nows, timestamps, j, k - 1);
        assert(timestamps[0].callback <= timestamps[k - 1].callback);
    } else {
        assert(anchor_after(None, nows, timestamps, 0) == None::<StreamAnchor>);
        assert(reanchor_count(None, nows, timestamps, 0) == 0);
    }
}

/// From the jump on, the anchor taken at the jump holds, and it is the only
/// one taken anew.
proof fn lemma_anchor_held_after_jump(nows: Seq<u64>, timestamps: Seq<StreamTimestamp>, j: int, m: int)
    requires
        nows.len() == timestamps.len(),
        0 < j < timestamps.len(),
        j + 1 <= m <= timestamps.len(),
        timestamps[j].callback < timestamps[0].callback,
        forall|a: int, b: int| 0 <= a <= b < j ==> timestamps[a].callback <= timestamps[b].callback,
        forall|a: int, b: int|
            j <= a <= b < timestamps.len() ==> timestamps[a].callback <= timestamps[b].callback,
    ensures
        anchor_after(None, nows, timestamps, m) == Some(
            StreamAnchor { realtime: nows[j], callback: timestamps[j].callback },
        ),
        reanchor_count(None, nows, timestamps, m) == 1,
    decreases m,
{
    if m == j + 1 {
        lemma_anchor_held_before_jump(nows, timestamps, j, j);
    } else {
        lemma_anchor_held_after_jump(nows, timestamps, j, m - 1);
        assert(timestamps[j].callback <= timestamps[m - 1].callback);
    }
}

impl StreamAnchor {
    /// Anchors the stream at a callback made at `timestamp` while the wall
    /// clock reads `realtime`.
    pub fn new(realtime: u64, timestamp: StreamTimestamp) -> (r: StreamAnchor)
        ensures
            r.realtime == realtime,
            r.callback == timestamp.callback,
    {
        StreamAnchor { realtime, callback: timestamp.callback }
    }

    /// Wall-clock instant at which the buffer of a callback at `timestamp`
    /// plays: the anchored wall-clock instant advanced by the device time
    /// from the anchored callback instant to this callback. `None` where the
    /// callback lies before the anchored one, or where the instant does not
    /// fit in 64 bits.
    pub fn playback_wallclock(&self, timestamp: StreamTimestamp) -> (r: Option<u64>)
        ensures
            match r {
                Some(w) => timestamp.callback >= self.callback && w == wallclock_of(*self, timestamp.callback as int),
                None => timestamp.callback < self.callback || wallclock_of(*self, timestamp.callback as int) > u64::MAX,
            },
    {
        if timestamp.callback < self.callback {
            return None;
        }
        self.realtime.checked_add(timestamp.callback - self.callback)
    }
}

/// The anchor to use for a callback at `timestamp` while the wall clock reads
/// `now`, given the anchor of the earlier callbacks, and whether the device
/// clock jumped back behind that anchor.
pub fn update_anchor(prev: Option<StreamAnchor>, now: u64, timestamp: StreamTimestamp) -> (r: (StreamAnchor, bool))
    ensures
        r.0 == next_anchor(prev, now, timestamp),
        r.1 == is_reanchor(prev, timestamp),
{
    match prev {
        Some(a) => {
            if a.callback <= timestamp.callback {
                (a, false)
            } else {
                (StreamAnchor::new(now, timestamp), true)
            }
        },
        None => (StreamAnchor::new(now, timestamp), false),
    }
}

} // verus!
