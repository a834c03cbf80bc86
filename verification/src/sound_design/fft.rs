//! Layout of the spectrum buffer and the cutting of a track into frames.
//!
//! Every track is cut into frames of `size` samples.  The spectrum of frame
//! `f` of track `t` keeps `size / 2` magnitudes and is stored in the shared
//! spectrum buffer at the *slot* of `(f, t)`: all tracks of frame 0 first,
//! then all tracks of frame 1, and so on.
use vstd::prelude::*;

verus! {

/// First index of the slot of frame `frame` of track `track`.
pub open spec fn slot_start(frame: int, track: int, nb_tracks: int, size: int) -> int {
    (frame * nb_tracks * size) / 2 + (track * size) / 2
}

/// One past the last index of the slot of frame `frame` of track `track`.
pub open spec fn slot_end(frame: int, track: int, nb_tracks: int, size: int) -> int {
    slot_start(frame, track, nb_tracks, size) + size / 2
}

/// The slot can be computed in `usize` arithmetic, every intermediate
/// product and sum included.
pub open spec fn slot_computable(frame: int, track: int, nb_tracks: int, size: int) -> bool {
    &&& frame * nb_tracks <= usize::MAX
    &&& frame * nb_tracks * size <= usize::MAX
    &&& track * size <= usize::MAX
    &&& slot_end(frame, track, nb_tracks, size) <= usize::MAX
}

/// The slot of frame `frame_index` of track `track_index`, as the range
/// `(start, end)` of the spectrum buffer.
pub fn frame_slot(frame_index: usize, track_index: usize, nb_tracks: usize, size: usize) -> (r: (
    usize,
    usize,
))
    requires
        slot_computable(frame_index as int, track_index as int, nb_tracks as int, size as int),
    ensures
        r.0 == slot_start(frame_index as int, track_index as int, nb_tracks as int, size as int),
        r.1 == slot_end(frame_index as int, track_index as int, nb_tracks as int, size as int),
{
    let start = frame_index * nb_tracks * size / 2 + (track_index * size / 2);
    let end = start + size / 2;
    (start, end)
}

proof fn lemma_div2_nonneg(x: int)
    requires
        x >= 0,
    ensures
        x / 2 >= 0,
{
}

/// Halving does not lose more than adding before halving.
proof fn lemma_half_sum(a: int, b: int)
    requires
        a >= 0,
        b >= 0,
    ensures
        a / 2 + b / 2 <= (a + b) / 2,
{
}

/// `x * s` grows with `x`.
proof fn lemma_mul_mono(x: int, y: int, s: int)
    requires
        0 <= x <= y,
        s >= 0,
    ensures
        0 <= x * s <= y * s,
{
    assert(0 <= x * s <= y * s) by (nonlinear_arith)
        requires
            0 <= x <= y,
            s >= 0,
    ;
}

/// Within one frame, the slot of a track ends no later than the slot of
/// any later track starts.
proof fn lemma_track_offsets(t1: int, t2: int, size: int)
    requires
        0 <= t1 < t2,
        size >= 0,
    ensures
        (t1 * size) / 2 + size / 2 <= (t2 * size) / 2,
{
    assert((t1 + 1) * size == t1 * size + size) by (nonlinear_arith);
    lemma_mul_mono(0, t1, size);
    lemma_half_sum(t1 * size, size);
    lemma_mul_mono(t1 + 1, t2, size);
}

/// Two different `(frame, track)` pairs of the same layout have slots that
/// do not overlap.
pub proof fn law_slots_disjoint(f1: int, t1: int, f2: int, t2: int, nb_tracks: int, size: int)
    requires
        0 <= f1,
        0 <= f2,
        0 <= t1 < nb_tracks,
        0 <= t2 < nb_tracks,
        size >= 0,
        f1 != f2 || t1 != t2,
    ensures
        slot_end(f1, t1, nb_tracks, size) <= slot_start(f2, t2, nb_tracks, size) || slot_end(
            f2,
            t2,
            nb_tracks,
            size,
        ) <= slot_start(f1, t1, nb_tracks, size),
{
    if f1 == f2 {
        if t1 < t2 {
            lemma_track_offsets(t1, t2, size);
        } else {
            lemma_track_offsets(t2, t1, size);
        }
    } else if f1 < f2 {
        lemma_frame_before(f1, t1, f2, t2, nb_tracks, size);
    } else {
        lemma_frame_before(f2, t2, f1, t1, nb_tracks, size);
    }
}

/// Every slot of an earlier frame ends before any slot of a later frame starts.
proof fn lemma_frame_before(f1: int, t1: int, f2: int, t2: int, nb_tracks: int, size: int)
    requires
        0 <= f1 < f2,
        0 <= t1 < nb_tracks,
        0 <= t2 < nb_tracks,
        size >= 0,
    ensures
        slot_end(f1, t1, nb_tracks, size) <= slot_start(f2, t2, nb_tracks, size),
{
    let a = f1 * nb_tracks * size;
    let b = nb_tracks * size;
    // the last slot of frame f1 ends within the first (nb_tracks * size) / 2 values
    lemma_track_offsets(t1, nb_tracks, size);
    assert(f1 * nb_tracks * size + nb_tracks * size == (f1 + 1) * nb_tracks * size) by (nonlinear_arith);
    assert(0 <= f1 * nb_tracks * size) by (nonlinear_arith)
        requires
            0 <= f1,
            0 <= nb_tracks,
            size >= 0,
    ;
    assert(0 <= nb_tracks * size) by (nonlinear_arith)
        requires
            0 <= nb_tracks,
            size >= 0,
    ;
    lemma_half_sum(a, b);
    assert((f1 + 1) * nb_tracks * size <= f2 * nb_tracks * size) by (nonlinear_arith)
        requires
            0 <= f1 < f2,
            0 <= nb_tracks,
            size >= 0,
    ;
    lemma_mul_mono(0, t2, size);
    lemma_div2_nonneg(t2 * size);
}

/// A slot lies inside the window of its frame: the window of frame `f`
/// starts at the slot of track 0 and holds `(nb_tracks * size) / 2` values.
pub proof fn law_slot_inside_frame_window(frame: int, track: int, nb_tracks: int, size: int)
    requires
        0 <= frame,
        0 <= track < nb_tracks,
        size >= 0,
    ensures
        slot_start(frame, track, nb_tracks, size) == (frame * nb_tracks * size) / 2 + (track
            * size) / 2,
        (frame * nb_tracks * size) / 2 <= slot_start(frame, track, nb_tracks, size),
        slot_end(frame, track, nb_tracks, size) <= (frame * nb_tracks * size) / 2 + (nb_tracks
            * size) / 2,
{
    lemma_mul_mono(0, track, size);
    lemma_div2_nonneg(track * size);
    lemma_track_offsets(track, nb_tracks, size);
}

/// Cuts one track into frames of `size` samples and tells where the
/// spectrum of each completed frame goes.
pub struct TrackFramer<T> {
    size: usize,
    track_index: usize,
    nb_tracks: usize,
    out_len: usize,
    pending: Vec<T>,
    frame: usize,
    pushed: Ghost<nat>,
}

/// Mathematical form of a `TrackFramer`.
pub struct FramerModel<T> {
    pub size: nat,
    pub track_index: nat,
    pub nb_tracks: nat,
    /// Length of the spectrum buffer the slots must fit in.
    pub out_len: nat,
    /// Samples of the frame being filled.
    pub pending: Seq<T>,
    /// Index of the frame being filled.
    pub frame: nat,
    /// Number of samples pushed so far.
    pub pushed: nat,
}

impl<T> View for TrackFramer<T> {
    type V = FramerModel<T>;

    closed spec fn view(&self) -> FramerModel<T> {
        FramerModel {
            size: self.size as nat,
            track_index: self.track_index as nat,
            nb_tracks: self.nb_tracks as nat,
            out_len: self.out_len as nat,
            pending: self.pending@,
            frame: self.frame as nat,
            pushed: self.pushed@,
        }
    }
}

impl<T> TrackFramer<T> {
    /// The frame being filled is never full between two pushes.
    #[verifier::type_invariant]
    spec fn frame_not_full(self) -> bool {
        self.size == 0 || (self.pending.len() < self.size && self.frame * self.size
            + self.pending.len() == self.pushed@)
    }
}

impl<T> FramerModel<T> {
    /// With frames of at least one sample: the frame being filled is not
    /// full, and the completed frames and the pending samples account for
    /// every pushed sample.
    pub open spec fn consistent(self) -> bool {
        self.size > 0 ==> {
            &&& self.pending.len() < self.size
            &&& self.frame * self.size + self.pending.len() == self.pushed
        }
    }

    /// The next push completes the frame being filled.
    pub open spec fn completes_frame(self) -> bool {
        self.pending.len() + 1 == self.size
    }

    /// A push is possible: when it completes a frame, the frame's slot can be
    /// computed, fits the spectrum buffer, and the frame counter can advance.
    pub open spec fn can_push(self) -> bool {
        self.completes_frame() ==> {
            &&& slot_computable(
                self.frame as int,
                self.track_index as int,
                self.nb_tracks as int,
                self.size as int,
            )
            &&& slot_end(
                self.frame as int,
                self.track_index as int,
                self.nb_tracks as int,
                self.size as int,
            ) <= self.out_len
            &&& self.frame + 1 <= usize::MAX
        }
    }
}

impl<T> TrackFramer<T> {
    /// A framer for track `track_index` out of `nb_tracks`, with frames of
    /// `size` samples, writing into a spectrum buffer of `out_len` values.
    pub fn new(size: usize, track_index: usize, nb_tracks: usize, out_len: usize) -> (r: Self)
        ensures
            r@.size == size,
            r@.track_index == track_index,
            r@.nb_tracks == nb_tracks,
            r@.out_len == out_len,
            r@.pending == Seq::<T>::empty(),
            r@.frame == 0,
            r@.pushed == 0,
            r@.consistent(),
    {
        TrackFramer {
            size,
            track_index,
            nb_tracks,
            out_len,
            pending: Vec::new(),
            frame: 0,
            pushed: Ghost(0),
        }
    }

    /// Whether the next push is possible (see `FramerModel::can_push`).
    pub fn can_push(&self) -> (r: bool)
        ensures
            r == self@.can_push(),
    {
        if self.pending.len() < self.size && self.pending.len() + 1 == self.size {
            let f = self.frame as u128;
            let t = self.track_index as u128;
            let n = self.nb_tracks as u128;
            let s = self.size as u128;
            let max = usize::MAX as u128;
            proof {
                assert(f * n <= max * max && t * s <= max * max) by (nonlinear_arith)
                    requires
                        f <= max,
                        n <= max,
                        t <= max,
                        s <= max,
                ;
                assert(max * max < 0x1_0000_0000_0000_0000_0000_0000_0000_0000) by (nonlinear_arith)
                    requires
                        max <= 0xffff_ffff_ffff_ffff,
                ;
            }
            if f * n > max {
                return false;
            }
            if t * s > max {
                return false;
            }
            proof {
                assert(f * n * s <= max * max) by (nonlinear_arith)
                    requires
                        f * n <= max,
                        s <= max,
                ;
            }
            if f * n * s > max {
                return false;
            }
            let end = f * n * s / 2 + t * s / 2 + s / 2;
            end <= max && end <= self.out_len as u128 && f < max
        } else {
            true
        }
    }

    /// Adds one sample to the frame being filled.  When that completes the
    /// frame, returns its samples and its slot `(start, end)`, and starts the
    /// next frame; otherwise returns `None`.
    pub fn push(&mut self, sample: T) -> (r: Option<(Vec<T>, usize, usize)>)
        requires
            old(self)@.can_push(),
        ensures
            old(self)@.consistent(),
            final(self)@.consistent(),
            final(self)@.pushed == old(self)@.pushed + 1,
            final(self)@.size == old(self)@.size,
            final(self)@.track_index == old(self)@.track_index,
            final(self)@.nb_tracks == old(self)@.nb_tracks,
            final(self)@.out_len == old(self)@.out_len,
            old(self)@.completes_frame() ==> {
                &&& r matches Some((samples, start, end))
                &&& samples@ == old(self)@.pending.push(sample)
                &&& start == slot_start(
                    old(self)@.frame as int,
                    old(self)@.track_index as int,
                    old(self)@.nb_tracks as int,
                    old(self)@.size as int,
                )
                &&& end == slot_end(
                    old(self)@.frame as int,
                    old(self)@.track_index as int,
                    old(self)@.nb_tracks as int,
                    old(self)@.size as int,
                )
                &&& final(self)@.pending == Seq::<T>::empty()
                &&& final(self)@.frame == old(self)@.frame + 1
            },
            !old(self)@.completes_frame() ==> {
                &&& r is None
                &&& final(self)@.pending == old(self)@.pending.push(sample)
                &&& final(self)@.frame == old(self)@.frame
            },
    {
        proof {
            use_type_invariant(&*self);
        }
        let mut taken = TrackFramer::new(self.size, self.track_index, self.nb_tracks, self.out_len);
        std::mem::swap(&mut taken, self);
        let TrackFramer { size, track_index, nb_tracks, out_len, mut pending, frame, pushed } = taken;
        let ghost count = pushed@ + 1;
        pending.push(sample);
        if pending.len() == size {
            let (start, end) = frame_slot(frame, track_index, nb_tracks, size);
            proof {
                assert((frame + 1) * size == frame * size + size) by (nonlinear_arith);
            }
            *self = TrackFramer {
                size,
                track_index,
                nb_tracks,
                out_len,
                pending: Vec::new(),
                frame: frame + 1,
                pushed: Ghost(count),
            };
            Some((pending, start, end))
        } else {
            *self = TrackFramer {
                size,
                track_index,
                nb_tracks,
                out_len,
                pending,
                frame,
                pushed: Ghost(count),
            };
            None
        }
    }
}

} // verus!
