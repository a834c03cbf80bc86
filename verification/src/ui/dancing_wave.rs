//! Which part of the spectrum buffer the dancing waves show at a given frame.
use vstd::prelude::*;
use crate::sound_design::fft::{law_slot_inside_frame_window, slot_end, slot_start};
use crate::sound_design::track_wave::track_offset;

verus! {

/// First index of the values of frame `frame` (all tracks).
pub open spec fn window_start(frame: int, nb_tracks: int, size: int) -> int {
    (frame * nb_tracks * size) / 2
}

/// Number of values of one frame (all tracks).
pub open spec fn window_len(nb_tracks: int, size: int) -> int {
    (nb_tracks * size) / 2
}

/// The window of frame `frame` can be computed in `usize` arithmetic.
pub open spec fn window_computable(frame: int, nb_tracks: int, size: int) -> bool {
    &&& frame * nb_tracks <= usize::MAX
    &&& frame * nb_tracks * size <= usize::MAX
    &&& nb_tracks * size <= usize::MAX
    &&& window_start(frame, nb_tracks, size) + window_len(nb_tracks, size) <= usize::MAX
}

/// The range `(start, end)` of the values of frame `frame` in a spectrum
/// buffer of `len` values, or `None` when the frame lies past its end.
pub fn frame_window(frame: usize, nb_tracks: usize, size: usize, len: usize) -> (r: Option<(usize, usize)>)
    requires
        window_computable(frame as int, nb_tracks as int, size as int),
    ensures
        ({
            let start = window_start(frame as int, nb_tracks as int, size as int);
            let end = start + window_len(nb_tracks as int, size as int);
            if end > len {
                r is None
            } else {
                r == Some((start as usize, end as usize))
            }
        }),
        r matches Some((start, end)) ==> start == (frame * nb_tracks * size) / 2 && end - start == (
        nb_tracks * size) / 2 && end <= len,
        r is None ==> (frame * nb_tracks * size) / 2 + (nb_tracks * size) / 2 > len,
{
    proof {
        assert(frame * nb_tracks * size / 2 >= 0);
        assert(nb_tracks * size / 2 >= 0);
    }
    let start = frame * nb_tracks * size / 2;
    let end = start + (nb_tracks * size / 2);
    if end > len {
        None
    } else {
        Some((start, end))
    }
}

/// With frames of an even number of samples, the window of a frame starts
/// where the slot of its first track starts and ends exactly where the slot
/// of its last track ends (one track included): it holds that frame and
/// nothing of the next.
pub proof fn law_window_is_one_frame(frame: int, nb_tracks: int, size: int)
    requires
        0 <= frame,
        1 <= nb_tracks,
        size >= 0,
        size % 2 == 0,
    ensures
        window_start(frame, nb_tracks, size) == slot_start(frame, 0, nb_tracks, size),
        window_start(frame, nb_tracks, size) + window_len(nb_tracks, size) == slot_end(
            frame,
            nb_tracks - 1,
            nb_tracks,
            size,
        ),
        window_start(frame, nb_tracks, size) + window_len(nb_tracks, size) == slot_start(
            frame + 1,
            0,
            nb_tracks,
            size,
        ),
        window_len(nb_tracks, size) == nb_tracks * (size / 2),
{
    let h = size / 2;
    assert(size == 2 * h);
    assert(frame * nb_tracks * size == 2 * (frame * nb_tracks * h)) by (nonlinear_arith)
        requires
            size == 2 * h,
    ;
    assert(nb_tracks * size == 2 * (nb_tracks * h)) by (nonlinear_arith)
        requires
            size == 2 * h,
    ;
    assert((nb_tracks - 1) * size == 2 * ((nb_tracks - 1) * h)) by (nonlinear_arith)
        requires
            size == 2 * h,
    ;
    assert((frame + 1) * nb_tracks * size == 2 * (frame * nb_tracks * h + nb_tracks * h)) by (nonlinear_arith)
        requires
            size == 2 * h,
    ;
    assert(0 * size == 0);
    assert((nb_tracks - 1) * h + h == nb_tracks * h) by (nonlinear_arith);
}

/// The values that the display takes for track `track` of frame `frame`
/// (its window, then the track's part of it) are exactly the slot that the
/// spectrum of that frame of that track was rendered into, and the track's
/// part lies inside the window.
pub proof fn law_display_reads_rendered_slot(frame: int, track: int, nb_tracks: int, size: int)
    requires
        0 <= frame,
        0 <= track < nb_tracks,
        size >= 0,
    ensures
        window_start(frame, nb_tracks, size) + track_offset(track, size) == slot_start(
            frame,
            track,
            nb_tracks,
            size,
        ),
        window_start(frame, nb_tracks, size) + track_offset(track, size) + size / 2 == slot_end(
            frame,
            track,
            nb_tracks,
            size,
        ),
        0 <= track_offset(track, size),
        track_offset(track, size) + size / 2 <= window_len(nb_tracks, size),
{
    law_slot_inside_frame_window(frame, track, nb_tracks, size);
}

} // verus!
