//! Bookkeeping of a decoded audio stream: how many samples it announces and
//! the buffer of decoded samples that is handed out one by one.
use vstd::prelude::*;

verus! {

/// Number of interleaved channels assumed for a stream: the announced
/// count, two when the container announces none.
pub open spec fn channel_count(channels: Option<usize>) -> nat {
    match channels {
        Some(n) => n as nat,
        None => 2,
    }
}

/// Total number of interleaved samples of a stream of `n_frames` frames.
pub open spec fn total_samples_of(n_frames: Option<u64>, channels: Option<usize>) -> Option<int> {
    match n_frames {
        Some(f) => Some(f * channel_count(channels)),
        None => None,
    }
}

/// Total number of interleaved samples of a stream that announces
/// `n_frames` frames of `channels` channels; unknown when the frame count is.
pub fn total_sample_count(n_frames: Option<u64>, channels: Option<usize>) -> (r: Option<u64>)
    requires
        n_frames matches Some(f) ==> f * channel_count(channels) <= u64::MAX,
    ensures
        match total_samples_of(n_frames, channels) {
            Some(t) => r == Some(t as u64),
            None => r is None,
        },
        n_frames matches Some(f) ==> (channels matches Some(n) ==> r == Some((f * n) as u64)),
        channels is None ==> (n_frames matches Some(f) ==> r == Some((f * 2) as u64)),
        n_frames is None ==> r is None,
{
    let nb_channels: usize = match channels {
        Some(n) => n,
        None => 2,
    };
    assert(nb_channels == channel_count(channels));
    match n_frames {
        Some(frames) => {
            let c = nb_channels as u64;
            assert(c == nb_channels);
            let t = frames * c;
            assert(t == frames * channel_count(channels));
            Some(t)
        },
        None => None,
    }
}

/// The total is the announced frame count times the announced channel
/// count, whatever that count is (mono, stereo, 5.1, ...), and twice the
/// frame count when no channel count is announced.
pub proof fn law_total_is_frames_times_channels(f: u64, channels: Option<usize>)
    ensures
        channels matches Some(n) ==> total_samples_of(Some(f), channels) == Some(f * n),
        channels is None ==> total_samples_of(Some(f), channels) == Some(f * 2),
        total_samples_of(None, channels) is None,
{
}

/// A buffer of decoded samples and the position of the next one to hand out.
pub struct SampleCursor<T> {
    buf: Vec<T>,
    index: usize,
    served: u64,
}

/// Mathematical form of a `SampleCursor`.
pub struct CursorModel<T> {
    pub buf: Seq<T>,
    pub index: nat,
    /// Number of samples handed out since the cursor was made, counted
    /// modulo 2^64 (the counter wraps around).
    pub served: u64,
}

impl<T> View for SampleCursor<T> {
    type V = CursorModel<T>;

    closed spec fn view(&self) -> CursorModel<T> {
        CursorModel { buf: self.buf@, index: self.index as nat, served: self.served }
    }
}

impl<T> SampleCursor<T> {
    /// The position never passes the end of the buffer.
    #[verifier::type_invariant]
    spec fn position_in_buffer(self) -> bool {
        self.index <= self.buf.len()
    }
}

impl<T: Copy> SampleCursor<T> {
    /// A cursor at the start of `buf`.
    pub fn new(buf: Vec<T>) -> (r: Self)
        ensures
            r@.buf == buf@,
            r@.index == 0,
            r@.served == 0,
    {
        SampleCursor { buf, index: 0, served: 0 }
    }

    /// Hands out the next buffered sample, or `None` when the buffer is
    /// used up (the cursor is then left as it is).
    pub fn next_buffered(&mut self) -> (r: Option<T>)
        ensures
            old(self)@.index <= old(self)@.buf.len(),
            final(self)@.buf == old(self)@.buf,
            old(self)@.index < old(self)@.buf.len() ==> r == Some(old(self)@.buf[old(self)@.index as int])
                && final(self)@.index == old(self)@.index + 1 && final(self)@.served == (
            old(self)@.served + 1) % 0x1_0000_0000_0000_0000,
            old(self)@.index >= old(self)@.buf.len() ==> r is None && final(self)@ == old(self)@,
    {
        proof {
            use_type_invariant(&*self);
        }
        if self.index < self.buf.len() {
            let s = self.buf[self.index];
            self.index = self.index + 1;
            self.served = self.served.wrapping_add(1);
            Some(s)
        } else {
            None
        }
    }

    /// Replaces the buffer by freshly decoded samples and starts at its
    /// first one.
    pub fn refill(&mut self, buf: Vec<T>)
        ensures
            final(self)@.buf == buf@,
            final(self)@.index == 0,
            final(self)@.served == old(self)@.served,
    {
        *self = SampleCursor { buf, index: 0, served: self.served };
    }

    /// Number of samples handed out since the cursor was made (modulo 2^64).
    pub fn served(&self) -> (r: u64)
        ensures
            r == self@.served,
    {
        self.served
    }

    /// Number of buffered samples not handed out yet.
    pub fn remaining(&self) -> (r: usize)
        ensures
            self@.index <= self@.buf.len(),
            r == self@.buf.len() - self@.index,
    {
        proof {
            use_type_invariant(self);
        }
        self.buf.len() - self.index
    }
}

} // verus!
