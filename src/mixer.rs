//! The summing bus: a table of voices, each a source placed at an absolute
//! sample position of the output stream.
//!
//! Sample values stay with the caller. The mixer decides, for each output
//! buffer, which stretch of which source lands where in it; the caller adds
//! those stretches up. A voice is dropped as soon as a buffer reaches its end.
//! There is no cap on the number of voices: every admitted source plays.
use vstd::prelude::*;

verus! {

/// One admitted source: `len` samples of source `source`, of which sample `k`
/// sounds at output position `start + k`.
#[derive(Clone, Copy, Debug, PartialEq, Eq, Structural)]
pub struct Voice {
    pub source: usize,
    pub start: u128,
    pub len: usize,
}

/// A stretch of one source within one output buffer: samples
/// `src .. src + len` of the source are added to buffer slots
/// `dst .. dst + len`.
#[derive(Clone, Copy, Debug, PartialEq, Eq, Structural)]
pub struct Segment {
    pub source: usize,
    pub src: usize,
    pub dst: usize,
    pub len: usize,
}

/// First output position after the voice's last sample.
pub open spec fn end_of(v: Voice) -> int {
    v.start + v.len
}

/// Whether the voice still has samples to play once the output has reached
/// position `position`.
pub open spec fn is_live(v: Voice, position: int) -> bool {
    end_of(v) > position
}

/// The voices among `voices` that are still live at `position`, in order.
pub open spec fn live_after(voices: Seq<Voice>, position: int) -> Seq<Voice> {
    voices.filter(|v: Voice| is_live(v, position))
}

/// Whether voice `v` sounds at output position `t`.
pub open spec fn sounds_at(v: Voice, t: int) -> bool {
    v.start <= t < end_of(v)
}

pub open spec fn max_int(a: int, b: int) -> int {
    if a >= b { a } else { b }
}

pub open spec fn min_int(a: int, b: int) -> int {
    if a <= b { a } else { b }
}

/// The part of voice `v` that falls in the buffer of `n` samples starting
/// at output position `position`; an empty segment where nothing does.
pub open spec fn segment_of(v: Voice, position: int, n: int) -> Segment {
    let lo = max_int(v.start as int, position);
    let hi = min_int(end_of(v), position + n);
    if lo < hi {
        Segment { source: v.source, src: (lo - v.start) as usize, dst: (lo - position) as usize, len: (hi - lo) as usize }
    } else {
        Segment { source: v.source, src: 0, dst: 0, len: 0 }
    }
}

/// Whether a voice's positions can be computed without overflow.
pub open spec fn fits(v: Voice) -> bool {
    end_of(v) <= u128::MAX
}

/// A voice that has played to its end by `position` is not among those kept
/// past it, so it adds nothing to later buffers; and no more voices are kept
/// than there were.
pub proof fn lemma_exhausted_voice_dropped(voices: Seq<Voice>, position: int, v: Voice)
    requires
        !is_live(v, position),
    ensures
        !live_after(voices, position).contains(v),
        live_after(voices, position).len() <= voices.len(),
{
    let live = |u: Voice| is_live(u, position);
    voices.lemma_filter_len(live);
    if live_after(voices, position).contains(v) {
        let i = choose|i: int| 0 <= i < voices.filter(live).len() && voices.filter(live)[i] == v;
        voices.lemma_filter_pred(live, i);
    }
}

/// The segment of a voice covers exactly the slots of the buffer at which the
/// voice sounds, and brings to each slot the voice's sample due there.
pub proof fn lemma_segment_covers_sounding_slots(v: Voice, position: int, n: int, t: int)
    requires
        fits(v),
        position >= 0,
        0 <= n <= usize::MAX,
        position <= t < position + n,
        position + n <= u64::MAX,
    ensures
        ({
            let s = segment_of(v, position, n);
            &&& sounds_at(v, t) <==> s.dst <= t - position < s.dst + s.len
            &&& sounds_at(v, t) ==> s.src + (t - position - s.dst) == t - v.start
            &&& s.source == v.source
        }),
{
    let lo = max_int(v.start as int, position);
    let hi = min_int(end_of(v), position + n);
    if lo < hi {
        assert(0 <= lo - v.start <= v.len);
        assert(0 <= lo - position < n);
        assert(0 < hi - lo <= n);
        let s = segment_of(v, position, n);
        assert(s.src == lo - v.start);
        assert(s.dst == lo - position);
        assert(s.len == hi - lo);
    }
}

pub struct Mixer {
    position: u64,
    voices: Vec<Voice>,
}

impl Mixer {
    /// Output position of the next buffer's first sample.
    pub closed spec fn position_spec(&self) -> u64 {
        self.position
    }

    /// The voices held, in order of admission.
    pub closed spec fn voices_spec(&self) -> Seq<Voice> {
        self.voices@
    }

    /// Every voice held fits in the position range.
    pub closed spec fn wf(&self) -> bool {
        forall|i: int| 0 <= i < self.voices@.len() ==> fits(#[trigger] self.voices@[i])
    }

    /// An empty mixer at output position zero.
    pub fn new() -> (r: Mixer)
        ensures
            r.wf(),
            r.position_spec() == 0,
            r.voices_spec() == Seq::<Voice>::empty(),
    {
        Mixer { position: 0, voices: Vec::new() }
    }

    /// An empty mixer at output position zero, with room reserved for
    /// `capacity` voices.
    pub fn with_capacity(capacity: usize) -> (r: Mixer)
        ensures
            r.wf(),
            r.position_spec() == 0,
            r.voices_spec() == Seq::<Voice>::empty(),
    {
        Mixer { position: 0, voices: Vec::with_capacity(capacity) }
    }

    pub fn position(&self) -> (r: u64)
        ensures
            r == self.position_spec(),
    {
        self.position
    }

    /// Number of voices held.
    pub fn voice_count(&self) -> (r: usize)
        ensures
            r == self.voices_spec().len(),
    {
        self.voices.len()
    }

    /// Admits `len` samples of `source`, to start `delay` samples after the
    /// start of the next buffer.
    pub fn add(&mut self, source: usize, len: usize, delay: u128)
        requires
            old(self).wf(),
            old(self).position_spec() + delay + len <= u128::MAX,
        ensures
            final(self).wf(),
            final(self).position_spec() == old(self).position_spec(),
            final(self).voices_spec() == old(self).voices_spec().push(
                Voice { source, start: (old(self).position_spec() + delay) as u128, len },
            ),
    {
        let v = Voice { source, start: self.position as u128 + delay, len };
        self.voices.push(v);
    }

    /// Lays out the next `n` output samples into `segments`, replacing what
    /// it held: one segment per voice held, in the same order. Then moves on
    /// by `n` and drops the voices that have played to their end.
    pub fn render(&mut self, n: usize, segments: &mut Vec<Segment>)
        requires
            old(self).wf(),
            old(self).position_spec() + n <= u64::MAX,
        ensures
            final(self).wf(),
            final(self).position_spec() == old(self).position_spec() + n,
            final(segments)@.len() == old(self).voices_spec().len(),
            forall|i: int|
                0 <= i < final(segments)@.len() ==> #[trigger] final(segments)@[i] == segment_of(
                    old(self).voices_spec()[i],
                    old(self).position_spec() as int,
                    n as int,
                ),
            final(self).voices_spec() == live_after(old(self).voices_spec(), old(self).position_spec() + n),
            forall|i: int|
                0 <= i < final(self).voices_spec().len() ==> is_live(
                    #[trigger] final(self).voices_spec()[i],
                    final(self).position_spec() as int,
                ),
    {
        let position = self.position;
        let next = position + n as u64;
        let ghost orig = self.voices@;
        let count = self.voices.len();
        segments.clear();
        let mut kept: usize = 0;
        let mut i: usize = 0;
        while i < count
            invariant
                self.position == position,
                next == position + n,
                count == orig.len(),
                self.voices@.len() == count,
                0 <= kept <= i <= count,
                forall|j: int| 0 <= j < count ==> fits(#[trigger] self.voices@[j]),
                forall|j: int| i <= j < count ==> #[trigger] self.voices@[j] == orig[j],
                forall|j: int| 0 <= j < count ==> fits(#[trigger] orig[j]),
                segments@.len() == i,
                forall|j: int|
                    0 <= j < i ==> #[trigger] segments@[j] == segment_of(orig[j], position as int, n as int),
                self.voices@.take(kept as int) == live_after(orig.take(i as int), next as int),
                forall|j: int| 0 <= j < kept ==> is_live(#[trigger] self.voices@[j], next as int),
            decreases count - i,
        {
            let v = self.voices[i];
            assert(fits(orig[i as int]));
            let end: u128 = v.start + v.len as u128;
            let lo: u128 = if v.start >= position as u128 { v.start } else { position as u128 };
            let hi: u128 = if end <= next as u128 { end } else { next as u128 };
            let seg = if lo < hi {
                Segment { source: v.source, src: (lo - v.start) as usize, dst: (lo - position as u128) as usize, len: (hi - lo) as usize }
            } else {
                Segment { source: v.source, src: 0, dst: 0, len: 0 }
            };
            segments.push(seg);
            let ghost before = self.voices@;
            proof {
                orig.take(i as int).lemma_filter_push(v, |u: Voice| is_live(u, next as int));
                assert(orig.take(i as int + 1) =~= orig.take(i as int).push(v));
            }
            if end > next as u128 {
                self.voices.set(kept, v);
                proof {
                    assert(self.voices@.take(kept as int + 1) =~= before.take(kept as int).push(v));
                }
                kept = kept + 1;
            }
            i = i + 1;
        }
        proof {
            assert(orig.take(i as int) =~= orig);
        }
        self.voices.truncate(kept);
        proof {
            assert(self.voices@ =~= self.voices@.take(kept as int));
        }
        self.position = next;
    }
}

} // verus!
