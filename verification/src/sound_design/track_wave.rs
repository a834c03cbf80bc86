//! The spectrum values of one displayed frame, shared by all tracks.
use vstd::prelude::*;

verus! {

/// Offset of the values of track `track` inside the values of one frame.
pub open spec fn track_offset(track: int, fft_size: int) -> int {
    (track * fft_size) / 2
}

/// The spectrum values of one frame: `fft_size / 2` values per track, the
/// tracks one after the other.
pub struct FrameData<'a, T> {
    freq_buf: &'a [T],
}

impl<'a, T> View for FrameData<'a, T> {
    type V = Seq<T>;

    closed spec fn view(&self) -> Seq<T> {
        self.freq_buf@
    }
}

impl<'a, T> FrameData<'a, T> {
    /// The frame whose values are `freq_buf`.
    pub fn new(freq_buf: &'a [T]) -> (r: Self)
        ensures
            r@ == freq_buf@,
    {
        FrameData { freq_buf }
    }

    /// The `fft_size / 2` values of track `track_index`.
    pub fn get_slice(&self, track_index: usize, fft_size: usize) -> (r: &[T])
        requires
            track_index * fft_size <= usize::MAX,
            track_offset(track_index as int, fft_size as int) + fft_size / 2 <= self@.len(),
        ensures
            r@ == self@.subrange(
                track_offset(track_index as int, fft_size as int),
                track_offset(track_index as int, fft_size as int) + fft_size / 2,
            ),
    {
        let start = track_index * fft_size / 2;
        let end = start + (fft_size / 2);
        &self.freq_buf[start..end]
    }

    /// All the values of the frame.
    pub fn freq_buf(&self) -> (r: &[T])
        ensures
            r@ == self@,
    {
        self.freq_buf
    }
}

} // verus!
