//! The work of one output callback: place the device clock on the wall
//! clock, admit the play requests that arrived since the last callback at
//! the right distance into the stream, and lay out the buffer.
use vstd::prelude::*;
use vstd::arithmetic::div_mod::{lemma_div_is_ordered, lemma_fundamental_div_mod, lemma_hoist_over_denominator};
use vstd::arithmetic::mul::{lemma_mul_inequality, lemma_mul_is_distributive_sub_other_way, lemma_mul_strict_inequality};
use crate::clock::{next_anchor, is_reanchor, update_anchor, wallclock_of, StreamAnchor, StreamTimestamp};
use crate::mixer::{live_after, segment_of, Mixer, Segment, Voice};

verus! {

/// Nanoseconds in a second.
pub const NANOS_PER_SEC: u64 = 1_000_000_000;

/// Layout of the output stream.
#[derive(Clone, Copy, Debug, PartialEq, Eq, Structural)]
pub struct StreamConfig {
    /// Interleaved channels per frame.
    pub channels: u16,
    /// Frames per second.
    pub sample_rate: u32,
}

/// Whole frames that fit in `delay_ns` nanoseconds at `rate` frames per second.
pub open spec fn delay_frames(delay_ns: int, rate: int) -> int {
    delay_ns * rate / NANOS_PER_SEC as int
}

/// Interleaved samples of silence that stand for a delay of `delay_ns`:
/// whole frames, each of every channel.
pub open spec fn delay_samples(delay_ns: int, config: StreamConfig) -> int {
    delay_frames(delay_ns, config.sample_rate as int) * config.channels
}

/// Number of samples of silence that stand for a delay of `delay_ns` nanoseconds.
pub fn samples_for_delay(delay_ns: u64, config: StreamConfig) -> (r: u128)
    ensures
        r == delay_samples(delay_ns as int, config),
        // below 2^112
        r < 0x1_0000_0000_0000_0000_0000_0000_0000,
{
    assert((delay_ns as int) * (config.sample_rate as int) < 0x1_0000_0000_0000_0000_0000_0000) by (nonlinear_arith)
        requires delay_ns <= u64::MAX, config.sample_rate <= u32::MAX;
    let product: u128 = delay_ns as u128 * config.sample_rate as u128;
    let frames: u128 = product / NANOS_PER_SEC as u128;
    assert(frames * config.channels < 0x1_0000_0000_0000_0000_0000_0000_0000) by (nonlinear_arith)
        requires frames <= product, product < 0x1_0000_0000_0000_0000_0000_0000, config.channels <= u16::MAX;
    frames * config.channels as u128
}

/// A source to be played from wall-clock instant `target` on (nanoseconds
/// since the UNIX epoch). The source is named by the caller's handle and
/// holds `len` interleaved samples.
#[derive(Clone, Copy, Debug, PartialEq, Eq, Structural)]
pub struct TimedPlayRequest {
    pub source: usize,
    pub len: usize,
    pub target: u64,
}

impl TimedPlayRequest {
    /// A request to play `source` at `timestamp` postponed by `play_delay`.
    /// An instant past the 64-bit range is held at its end.
    pub fn new(source: usize, len: usize, timestamp: u64, play_delay: u64) -> (r: TimedPlayRequest)
        ensures
            r.source == source,
            r.len == len,
            r.target == if timestamp + play_delay <= u64::MAX { timestamp + play_delay } else { u64::MAX as int },
    {
        TimedPlayRequest { source, len, target: timestamp.saturating_add(play_delay) }
    }
}

/// Whether a request for `target` comes too late for a buffer that plays at
/// wall-clock instant `playback`.
pub open spec fn is_too_early(target: int, playback: int) -> bool {
    target < playback
}

/// How long after the start of a buffer playing at `playback` a request for
/// `target` starts: never less than zero.
pub open spec fn start_delay(target: int, playback: int) -> int {
    if target >= playback { target - playback } else { 0 }
}

/// Output position of the first sample of a source requested for `target`
/// and admitted into a buffer that starts at `position` and plays at
/// `playback`.
pub open spec fn onset(position: int, playback: int, target: int, config: StreamConfig) -> int {
    position + delay_samples(start_delay(target, playback), config)
}

/// The voice that a request becomes when admitted into that buffer.
pub open spec fn voice_for(req: TimedPlayRequest, position: int, playback: int, config: StreamConfig) -> Voice {
    Voice { source: req.source, start: onset(position, playback, req.target as int, config) as u128, len: req.len }
}

/// The voices held after `reqs` were admitted, behind `voices`, into a
/// buffer that starts at `position` and plays at `playback`.
pub open spec fn admitted(
    voices: Seq<Voice>,
    reqs: Seq<TimedPlayRequest>,
    position: int,
    playback: int,
    config: StreamConfig,
) -> Seq<Voice> {
    voices + reqs.map_values(|q: TimedPlayRequest| voice_for(q, position, playback, config))
}

/// Number of requests among `reqs` that come too late for `playback`.
pub open spec fn count_too_early(reqs: Seq<TimedPlayRequest>, playback: int) -> nat
    decreases reqs.len(),
{
    if reqs.len() == 0 {
        0
    } else {
        count_too_early(reqs.drop_last(), playback) + if is_too_early(reqs.last().target as int, playback) { 1nat } else { 0nat }
    }
}

/// The too-early counter after `reqs` were admitted for `playback`, starting
/// from `count`; it stays at the top of its range once there.
pub open spec fn counted_too_early(count: int, reqs: Seq<TimedPlayRequest>, playback: int) -> int {
    let c = count + count_too_early(reqs, playback);
    if c <= u64::MAX { c } else { u64::MAX as int }
}

/// Sources start in the order of their targets. Two requests for future
/// instants `t1 < t2`, the first admitted into a buffer at output position
/// `c1` playing at `w1`, the second into one at `c2` playing at `w2`, start
/// in that order, where the two buffers lie `frames` frames apart both in
/// the output and on the wall clock (the same buffer when `frames` is zero).
pub proof fn lemma_onset_order(
    config: StreamConfig,
    c1: int,
    w1: int,
    c2: int,
    w2: int,
    frames: int,
    t1: int,
    t2: int,
)
    requires
        frames >= 0,
        c2 == c1 + frames * config.channels,
        (w2 - w1) * config.sample_rate == frames * NANOS_PER_SEC,
        w1 < t1 < t2,
        w2 < t2,
    ensures
        onset(c1, w1, t1, config) <= onset(c2, w2, t2, config),
        (t2 - t1) * config.sample_rate >= NANOS_PER_SEC && config.channels > 0 ==> onset(c1, w1, t1, config)
            < onset(c2, w2, t2, config),
{
    let r = config.sample_rate as int;
    let ch = config.channels as int;
    let d = NANOS_PER_SEC as int;
    let f1 = (t1 - w1) * r / d;
    let f2 = (t2 - w2) * r / d;
    lemma_hoist_over_denominator((t2 - w2) * r, frames, d as nat);
    lemma_mul_is_distributive_sub_other_way(r, t2, w2);
    lemma_mul_is_distributive_sub_other_way(r, w2, w1);
    lemma_mul_is_distributive_sub_other_way(r, t2, w1);
    assert((t2 - w2) * r + frames * d == (t2 - w1) * r);
    lemma_mul_inequality(t1 - w1, t2 - w1, r);
    lemma_div_is_ordered((t1 - w1) * r, (t2 - w1) * r, d);
    assert(f1 <= f2 + frames);
    lemma_mul_inequality(f1, f2 + frames, ch);
    assert((f2 + frames) * ch == f2 * ch + frames * ch) by (nonlinear_arith);
    if (t2 - t1) * r >= d && ch > 0 {
        lemma_mul_is_distributive_sub_other_way(r, t2, t1);
        lemma_mul_is_distributive_sub_other_way(r, t1, w1);
        lemma_hoist_over_denominator((t1 - w1) * r, 1, d as nat);
        lemma_div_is_ordered((t1 - w1) * r + d, (t2 - w1) * r, d);
        assert(f1 < f2 + frames);
        lemma_mul_strict_inequality(f1, f2 + frames, ch);
    }
}

/// A request whose target lies `k` buffer periods of `period` nanoseconds
/// after the buffer's playback instant is preceded by as many whole frames
/// of silence as fit in `k × period × sample_rate`, one sample of each
/// channel per frame: off by less than one frame.
pub proof fn lemma_leading_silence(config: StreamConfig, playback: int, k: int, period: int)
    requires
        k >= 0,
        period >= 0,
    ensures
        ({
            let frames = delay_frames(start_delay(playback + k * period, playback), config.sample_rate as int);
            &&& frames * NANOS_PER_SEC <= k * period * config.sample_rate
            &&& k * period * config.sample_rate < (frames + 1) * NANOS_PER_SEC
            &&& delay_samples(start_delay(playback + k * period, playback), config) == frames * config.channels
        }),
{
    assert(k * period >= 0) by (nonlinear_arith)
        requires k >= 0, period >= 0;
    let x = k * period * config.sample_rate;
    let d = NANOS_PER_SEC as int;
    lemma_fundamental_div_mod(x, d);
    assert((x / d) * d == d * (x / d)) by (nonlinear_arith);
    assert((x / d + 1) * d == d * (x / d) + d) by (nonlinear_arith);
}

/// Buffers of `frames` frames that last `period` nanoseconds each follow a
/// buffer at output position `position` playing at `playback`; buffer `i`
/// then starts at `position + i × frames × channels` and plays at
/// `playback + i × period`. A request for `target`, not before `playback`,
/// has its first sample in the buffer numbered below, which plays no later
/// than `target` and less than one period before it.
pub proof fn lemma_onset_buffer_instant(
    config: StreamConfig,
    position: int,
    playback: int,
    target: int,
    frames: int,
    period: int,
)
    requires
        config.sample_rate > 0,
        config.channels > 0,
        frames > 0,
        period * config.sample_rate == frames * NANOS_PER_SEC,
        playback <= target,
    ensures
        ({
            let i = delay_frames(target - playback, config.sample_rate as int) / frames;
            &&& position + i * frames * config.channels <= onset(position, playback, target, config)
            &&& onset(position, playback, target, config) < position + (i + 1) * frames * config.channels
            &&& playback + i * period <= target < playback + (i + 1) * period
        }),
{
    let r = config.sample_rate as int;
    let ch = config.channels as int;
    let d = NANOS_PER_SEC as int;
    let x = (target - playback) * r;
    assert(x >= 0) by (nonlinear_arith)
        requires target - playback >= 0, r > 0, x == (target - playback) * r;
    let f = x / d;
    let i = f / frames;
    lemma_fundamental_div_mod(x, d);
    lemma_fundamental_div_mod(f, frames);
    assert(f >= 0);
    assert(i * frames <= f && f < (i + 1) * frames) by (nonlinear_arith)
        requires f == frames * i + f % frames, 0 <= f % frames < frames;
    assert(f * d <= x && x < (f + 1) * d) by (nonlinear_arith)
        requires x == d * f + x % d, 0 <= x % d < d;
    assert(i * frames * ch <= f * ch && f * ch < (i + 1) * frames * ch) by (nonlinear_arith)
        requires i * frames <= f, f < (i + 1) * frames, ch > 0;
    assert(i * period * r == i * frames * d) by (nonlinear_arith)
        requires period * r == frames * d;
    assert((i + 1) * period * r == (i + 1) * frames * d) by (nonlinear_arith)
        requires period * r == frames * d;
    assert(i * frames * d <= f * d) by (nonlinear_arith)
        requires i * frames <= f, d > 0;
    assert((f + 1) * d <= (i + 1) * frames * d) by (nonlinear_arith)
        requires f + 1 <= (i + 1) * frames, d > 0;
    assert(i * period <= target - playback) by (nonlinear_arith)
        requires i * period * r <= (target - playback) * r, r > 0;
    assert(target - playback < (i + 1) * period) by (nonlinear_arith)
        requires (target - playback) * r < (i + 1) * period * r, r > 0;
}

/// Among requests admitted into one buffer, a single one for an instant
/// already past starts at once, and the too-early counter rises by exactly
/// one (below the top of its range).
pub proof fn lemma_too_early_counted_once(
    config: StreamConfig,
    count: int,
    reqs: Seq<TimedPlayRequest>,
    k: int,
    position: int,
    playback: int,
)
    requires
        0 <= count < u64::MAX,
        0 <= k < reqs.len(),
        reqs[k].target < playback,
        forall|i: int| 0 <= i < reqs.len() && i != k ==> #[trigger] reqs[i].target >= playback,
    ensures
        onset(position, playback, reqs[k].target as int, config) == position,
        counted_too_early(count, reqs, playback) == count + 1,
{
    lemma_too_early_prefix(reqs, k, playback, reqs.len() as int);
    assert(reqs.take(reqs.len() as int) =~= reqs);
}

/// The first `m` requests hold the single too-early one exactly when `m > k`.
proof fn lemma_too_early_prefix(reqs: Seq<TimedPlayRequest>, k: int, playback: int, m: int)
    requires
        0 <= m <= reqs.len(),
        0 <= k < reqs.len(),
        reqs[k].target < playback,
        forall|i: int| 0 <= i < reqs.len() && i != k ==> #[trigger] reqs[i].target >= playback,
    ensures
        count_too_early(reqs.take(m), playback) == if m > k { 1nat } else { 0nat },
    decreases m,
{
    if m > 0 {
        lemma_too_early_prefix(reqs, k, playback, m - 1);
        assert(reqs.take(m).drop_last() =~= reqs.take(m - 1));
        assert(reqs.take(m).last() == reqs[m - 1]);
    } else {
        assert(reqs.take(0).len() == 0);
    }
}

/// Why a callback could not lay out its buffer; fatal to the stream.
#[derive(Clone, Copy, Debug, PartialEq, Eq, Structural)]
pub enum CallbackError {
    /// A wall-clock instant or an output position left the 64-bit range.
    TimeOverflow,
}

/// What one callback reports of its buffer.
#[derive(Clone, Copy, Debug, PartialEq, Eq, Structural)]
pub struct FilledBuffer {
    /// Wall-clock instant at which the buffer plays.
    pub playback: u64,
    /// Whether the anchor was replaced because the device clock went back.
    pub reanchored: bool,
}

/// State of the output callback, kept from one invocation to the next.
pub struct AudioCallback {
    config: StreamConfig,
    anchor: Option<StreamAnchor>,
    mixer: Mixer,
    too_early_plays: u64,
}

impl AudioCallback {
    pub closed spec fn spec_config(&self) -> StreamConfig {
        self.config
    }

    pub closed spec fn spec_anchor(&self) -> Option<StreamAnchor> {
        self.anchor
    }

    /// Output position of the next buffer's first sample.
    pub closed spec fn spec_position(&self) -> u64 {
        self.mixer.position_spec()
    }

    /// The voices held, in order of admission.
    pub closed spec fn spec_voices(&self) -> Seq<Voice> {
        self.mixer.voices_spec()
    }

    /// Requests that came too late since the counter was last fetched.
    pub closed spec fn spec_too_early(&self) -> u64 {
        self.too_early_plays
    }

    pub closed spec fn wf(&self) -> bool {
        self.mixer.wf()
    }

    /// A callback state for a stream laid out as `config`, before its first
    /// invocation.
    pub fn new(config: StreamConfig) -> (r: AudioCallback)
        ensures
            r.wf(),
            r.spec_config() == config,
            r.spec_anchor() is None,
            r.spec_position() == 0,
            r.spec_voices() == Seq::<Voice>::empty(),
            r.spec_too_early() == 0,
    {
        AudioCallback { config, anchor: None, mixer: Mixer::new(), too_early_plays: 0 }
    }

    /// As `new`, with room reserved for `voices` voices playing at once.
    pub fn with_capacity(config: StreamConfig, voices: usize) -> (r: AudioCallback)
        ensures
            r.wf(),
            r.spec_config() == config,
            r.spec_anchor() is None,
            r.spec_position() == 0,
            r.spec_voices() == Seq::<Voice>::empty(),
            r.spec_too_early() == 0,
    {
        AudioCallback { config, anchor: None, mixer: Mixer::with_capacity(voices), too_early_plays: 0 }
    }

    pub fn config(&self) -> (r: StreamConfig)
        ensures
            r == self.spec_config(),
    {
        self.config
    }

    pub fn anchor(&self) -> (r: Option<StreamAnchor>)
        ensures
            r == self.spec_anchor(),
    {
        self.anchor
    }

    pub fn position(&self) -> (r: u64)
        ensures
            r == self.spec_position(),
    {
        self.mixer.position()
    }

    /// Number of voices held.
    pub fn voice_count(&self) -> (r: usize)
        ensures
            r == self.spec_voices().len(),
    {
        self.mixer.voice_count()
    }

    /// Returns the number of too-early requests counted since the last call,
    /// and starts counting again from zero.
    pub fn fetch_too_early_plays(&mut self) -> (r: u64)
        requires
            old(self).wf(),
        ensures
            r == old(self).spec_too_early(),
            final(self).spec_too_early() == 0,
            final(self).wf(),
            final(self).spec_config() == old(self).spec_config(),
            final(self).spec_anchor() == old(self).spec_anchor(),
            final(self).spec_position() == old(self).spec_position(),
            final(self).spec_voices() == old(self).spec_voices(),
    {
        let r = self.too_early_plays;
        self.too_early_plays = 0;
        r
    }

    /// One invocation of the output callback, for a buffer of `n` samples.
    ///
    /// The device reports `timestamp`; the wall clock reads `now`. The first
    /// invocation anchors the device clock to the wall clock, and so does one
    /// whose callback instant lies before the anchored one. The buffer plays
    /// at the anchored wall-clock instant advanced by the device time from the
    /// anchored callback instant to this one. Each request of `requests` is
    /// admitted, in order, to start as far into the stream as its target lies
    /// after that instant, or at once where it lies before (such a request is
    /// counted as too early). Then the buffer is laid out into `segments`,
    /// one segment per voice, and voices that played to their end are
    /// dropped. On an error nothing changes.
    pub fn fill_data(
        &mut self,
        now: u64,
        timestamp: StreamTimestamp,
        requests: &[TimedPlayRequest],
        n: usize,
        segments: &mut Vec<Segment>,
    ) -> (r: Result<FilledBuffer, CallbackError>)
        requires
            old(self).wf(),
        ensures
            final(self).wf(),
            final(self).spec_config() == old(self).spec_config(),
            ({
                let a = next_anchor(old(self).spec_anchor(), now, timestamp);
                let w = wallclock_of(a, timestamp.callback as int);
                let c = old(self).spec_position() as int;
                let voices = admitted(old(self).spec_voices(), requests@, c, w, old(self).spec_config());
                &&& a.callback <= timestamp.callback
                &&& match r {
                    Ok(b) => {
                        &&& w <= u64::MAX
                        &&& c + n <= u64::MAX
                        &&& final(self).spec_anchor() == Some(a)
                        &&& b.playback == w
                        &&& b.reanchored == is_reanchor(old(self).spec_anchor(), timestamp)
                        &&& final(segments)@.len() == voices.len()
                        &&& forall|i: int| 0 <= i < voices.len() ==> #[trigger] final(segments)@[i] == segment_of(voices[i], c, n as int)
                        &&& final(self).spec_position() == c + n
                        &&& final(self).spec_voices() == live_after(voices, c + n)
                        &&& final(self).spec_too_early() == counted_too_early(old(self).spec_too_early() as int, requests@, w)
                    },
                    Err(e) => {
                        &&& e == CallbackError::TimeOverflow
                        &&& (w > u64::MAX || c + n > u64::MAX)
                        &&& final(self).spec_anchor() == old(self).spec_anchor()
                        &&& final(self).spec_position() == c
                        &&& final(self).spec_voices() == old(self).spec_voices()
                        &&& final(self).spec_too_early() == old(self).spec_too_early()
                        &&& final(segments)@ == old(segments)@
                    },
                }
            }),
    {
        let (anchor, reanchored) = update_anchor(self.anchor, now, timestamp);
        let playback = match anchor.playback_wallclock(timestamp) {
            Some(w) => w,
            None => {
                return Err(CallbackError::TimeOverflow);
            },
        };
        let position = self.mixer.position();
        if position > u64::MAX - n as u64 {
            return Err(CallbackError::TimeOverflow);
        }
        self.anchor = Some(anchor);
        let ghost old_voices = self.mixer.voices_spec();
        let ghost old_count = self.too_early_plays as int;
        let config = self.config;
        let mut i: usize = 0;
        while i < requests.len()
            invariant
                self.mixer.wf(),
                self.config == config,
                self.anchor == Some(anchor),
                self.mixer.position_spec() == position,
                position + n <= u64::MAX,
                0 <= i <= requests@.len(),
                self.mixer.voices_spec() == admitted(old_voices, requests@.take(i as int), position as int, playback as int, config),
                self.too_early_plays == counted_too_early(old_count, requests@.take(i as int), playback as int),
            decreases requests.len() - i,
        {
            let q = requests[i];
            let delay_ns: u64 = if q.target >= playback {
                q.target - playback
            } else {
                self.too_early_plays = self.too_early_plays.saturating_add(1);
                0
            };
            let delay = samples_for_delay(delay_ns, config);
            self.mixer.add(q.source, q.len, delay);
            proof {
                let pre = requests@.take(i as int);
                let post = requests@.take(i as int + 1);
                assert(post =~= pre.push(q));
                assert(post.drop_last() =~= pre);
                assert(admitted(old_voices, post, position as int, playback as int, config) =~= admitted(
                    old_voices,
                    pre,
                    position as int,
                    playback as int,
                    config,
                ).push(voice_for(q, position as int, playback as int, config)));
            }
            i = i + 1;
        }
        proof {
            assert(requests@.take(i as int) =~= requests@);
        }
        self.mixer.render(n, segments);
        Ok(FilledBuffer { playback, reanchored })
    }
}

} // verus!
