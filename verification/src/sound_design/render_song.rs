//! Size of the spectrum buffer of a song and the file that caches it.
//!
//! The cache file starts with the number of stored values as a `usize` in
//! little-endian bytes (4 or 8 bytes, the machine's width), followed by each
//! value as 4 little-endian bytes (the bit pattern of a 32-bit float), which
//! is how the file is read back on every machine.
use vstd::prelude::*;
use vstd::bytes::*;
use crate::sound_design::fft::{slot_end, slot_start, FramerModel};

verus! {

/// Number of frames of `size` samples needed to hold `total` samples
/// (the last frame may be partial).
pub open spec fn frame_count(total: int, size: int) -> int {
    (total + size - 1) / size
}

/// Length of the spectrum buffer of a song of `total` samples split over
/// `nb_tracks` tracks: one spare frame beyond `frame_count`, `size / 2`
/// values per track and frame.
pub open spec fn song_len(total: int, nb_tracks: int, size: int) -> int {
    nb_tracks * (frame_count(total, size) + 1) * (size / 2)
}

/// `song_buffer_len` can be computed without overflow: the frame count in
/// `u64` (where `total + size` is formed before one is taken off, so that
/// sum must fit), then the product in `usize`.
pub open spec fn song_len_computable(total: int, nb_tracks: int, size: int) -> bool {
    &&& size > 0
    &&& total + size <= u64::MAX
    &&& frame_count(total, size) + 1 <= usize::MAX
    &&& nb_tracks * (frame_count(total, size) + 1) <= usize::MAX
    &&& song_len(total, nb_tracks, size) <= usize::MAX
}

/// Length of the spectrum buffer of a song of `total_samples` samples over
/// `nb_tracks` tracks with frames of `size` samples.
pub fn song_buffer_len(total_samples: u64, nb_tracks: u32, size: usize) -> (r: usize)
    requires
        song_len_computable(total_samples as int, nb_tracks as int, size as int),
    ensures
        r == song_len(total_samples as int, nb_tracks as int, size as int),
{
    let total_frame = (total_samples + size as u64 - 1) / size as u64;
    let nb = nb_tracks as usize;
    let frames = total_frame as usize + 1;
    proof {
        assert(0 <= nb * frames) by (nonlinear_arith)
            requires
                0 <= nb,
                0 <= frames,
        ;
        assert(nb * frames * (size / 2) >= 0) by (nonlinear_arith)
            requires
                0 <= nb * frames,
                0 <= size / 2,
        ;
    }
    nb * frames * (size / 2)
}

/// With an even frame size, the slot of every frame the song can have
/// (frame index up to `frame_count`) and of every track fits the spectrum
/// buffer of the song.
pub proof fn law_slots_fit_song_buffer(frame: int, track: int, total: int, nb_tracks: int, size: int)
    requires
        size > 0,
        size % 2 == 0,
        total >= 0,
        0 <= track < nb_tracks,
        0 <= frame <= frame_count(total, size),
    ensures
        0 <= slot_start(frame, track, nb_tracks, size),
        slot_end(frame, track, nb_tracks, size) <= song_len(total, nb_tracks, size),
{
    let h = size / 2;
    let fc = frame_count(total, size);
    assert(size == 2 * h);
    assert(frame * nb_tracks * size == 2 * (frame * nb_tracks * h)) by (nonlinear_arith)
        requires
            size == 2 * h,
    ;
    assert(track * size == 2 * (track * h)) by (nonlinear_arith)
        requires
            size == 2 * h,
    ;
    assert(slot_start(frame, track, nb_tracks, size) == frame * nb_tracks * h + track * h);
    assert(0 <= frame * nb_tracks * h + track * h) by (nonlinear_arith)
        requires
            0 <= frame,
            0 <= track < nb_tracks,
            h >= 0,
    ;
    assert(frame * nb_tracks * h + track * h + h <= nb_tracks * (fc + 1) * h) by (nonlinear_arith)
        requires
            0 <= frame <= fc,
            0 <= track < nb_tracks,
            h >= 0,
    ;
}

/// While a track yields no more samples than the song announces, cutting it
/// into frames for the spectrum buffer of the song never runs past that
/// buffer (frames of an even number of samples): the frame that the next
/// sample completes has its slot inside the buffer.
pub proof fn law_track_frames_fit_song_buffer<T>(m: FramerModel<T>, total: int)
    requires
        m.consistent(),
        m.size > 0,
        m.size % 2 == 0,
        m.track_index < m.nb_tracks,
        m.out_len == song_len(total, m.nb_tracks as int, m.size as int),
        m.pushed < total,
    ensures
        m.completes_frame() ==> slot_end(
            m.frame as int,
            m.track_index as int,
            m.nb_tracks as int,
            m.size as int,
        ) <= m.out_len,
{
    if m.completes_frame() {
        let f = m.frame as int;
        let s = m.size as int;
        assert((f + 1) * s == f * s + s) by (nonlinear_arith);
        assert((f + 1) * s <= total + s - 1);
        assert(f + 1 <= (total + s - 1) / s) by (nonlinear_arith)
            requires
                (f + 1) * s <= total + s - 1,
                s > 0,
        ;
        law_slots_fit_song_buffer(f, m.track_index as int, total, m.nb_tracks as int, s);
    }
}

/// Bytes of the stored values, 4 little-endian bytes each, in order.
pub open spec fn values_bytes(values: Seq<u32>) -> Seq<u8>
    decreases values.len(),
{
    if values.len() == 0 {
        Seq::empty()
    } else {
        values_bytes(values.drop_last()) + spec_u32_to_le_bytes(values.last())
    }
}

/// Width in bytes of a `usize` on this machine, the width of the count
/// that starts a cache file.
pub open spec fn word_bytes() -> int {
    if usize::BITS == 64 {
        8
    } else {
        4
    }
}

/// The count `total` as `word_bytes()` little-endian bytes.
pub open spec fn count_bytes(total: usize) -> Seq<u8> {
    if usize::BITS == 64 {
        spec_u64_to_le_bytes(total as u64)
    } else {
        spec_u32_to_le_bytes(total as u32)
    }
}

/// Content of a cache file that announces `total` values and stores `values`.
pub open spec fn cache_bytes(total: usize, values: Seq<u32>) -> Seq<u8> {
    count_bytes(total) + values_bytes(values)
}

/// Number of values that a cache file announces.
pub open spec fn cache_total(bytes: Seq<u8>) -> int {
    if usize::BITS == 64 {
        spec_u64_from_le_bytes(bytes.subrange(0, 8)) as int
    } else {
        spec_u32_from_le_bytes(bytes.subrange(0, 4)) as int
    }
}

/// Value `i` of a cache file.
pub open spec fn cache_value(bytes: Seq<u8>, i: int) -> u32 {
    spec_u32_from_le_bytes(bytes.subrange(word_bytes() + 4 * i, word_bytes() + 4 * i + 4))
}

/// A cache file can be read into a buffer of `out_len` values: it holds its
/// count, announces at least one value and at most `out_len`, and holds
/// every announced value.
pub open spec fn cache_readable(bytes: Seq<u8>, out_len: int) -> bool {
    &&& bytes.len() >= word_bytes()
    &&& 1 <= cache_total(bytes) <= out_len
    &&& word_bytes() + 4 * cache_total(bytes) <= bytes.len()
}

proof fn lemma_values_bytes(values: Seq<u32>)
    ensures
        values_bytes(values).len() == 4 * values.len(),
        forall|i: int|
            0 <= i < values.len() ==> #[trigger] values_bytes(values).subrange(4 * i, 4 * i + 4)
                == spec_u32_to_le_bytes(values[i]),
    decreases values.len(),
{
    lemma_auto_spec_u32_to_from_le_bytes();
    if values.len() > 0 {
        let init = values.drop_last();
        lemma_values_bytes(init);
        let b = values_bytes(values);
        assert forall|i: int| 0 <= i < values.len() implies #[trigger] b.subrange(
            4 * i,
            4 * i + 4,
        ) == spec_u32_to_le_bytes(values[i]) by {
            if i < values.len() - 1 {
                assert(b.subrange(4 * i, 4 * i + 4) =~= values_bytes(init).subrange(4 * i, 4 * i + 4));
                assert(init[i] == values[i]);
            } else {
                assert(b.subrange(4 * i, 4 * i + 4) =~= spec_u32_to_le_bytes(values.last()));
            }
        }
    }
}

/// The count `total` as a `usize` in little-endian bytes.
fn count_to_bytes(total: usize) -> (r: Vec<u8>)
    ensures
        r@ == count_bytes(total),
{
    if usize::BITS == 64 {
        u64_to_le_bytes(total as u64)
    } else {
        u32_to_le_bytes(total as u32)
    }
}

/// The count that starts `bytes`.
fn count_from_bytes(bytes: &[u8]) -> (r: usize)
    requires
        bytes@.len() >= word_bytes(),
    ensures
        r == cache_total(bytes@),
{
    if usize::BITS == 64 {
        u64_from_le_bytes(&bytes[0..8]) as usize
    } else {
        u32_from_le_bytes(&bytes[0..4]) as usize
    }
}

/// The cache file of `values` (announcing `total_samples` values).
pub fn song_cache_bytes(total_samples: usize, values: &[u32]) -> (r: Vec<u8>)
    ensures
        r@ == cache_bytes(total_samples, values@),
{
    let mut r = count_to_bytes(total_samples);
    let mut i: usize = 0;
    while i < values.len()
        invariant
            i <= values@.len(),
            r@ == cache_bytes(total_samples, values@.take(i as int)),
        decreases values.len() - i,
    {
        let mut b = u32_to_le_bytes(values[i]);
        r.append(&mut b);
        assert(values@.take(i + 1).drop_last() =~= values@.take(i as int));
        assert(r@ =~= cache_bytes(total_samples, values@.take(i + 1)));
        i = i + 1;
    }
    assert(values@.take(values@.len() as int) =~= values@);
    r
}

/// Width in bytes of a `usize`.
fn word_width() -> (r: usize)
    ensures
        r == word_bytes(),
{
    if usize::BITS == 64 {
        8
    } else {
        4
    }
}

/// Whether `bytes` can be read into a buffer of `out_len` values.
pub fn is_readable_song_cache(bytes: &[u8], out_len: usize) -> (r: bool)
    ensures
        r == cache_readable(bytes@, out_len as int),
{
    let w = word_width();
    if bytes.len() < w {
        return false;
    }
    let total = count_from_bytes(bytes);
    if total < 1 || total > out_len {
        return false;
    }
    total <= (bytes.len() - w) / 4
}

/// Reads a cache file into `out`: value `i` of the file goes to `out[i]` for
/// every announced `i`; the rest of `out` is left as it was.
pub fn parse_song_cache(bytes: &[u8], out: &mut [u32])
    requires
        cache_readable(bytes@, old(out)@.len() as int),
    ensures
        final(out)@.len() == old(out)@.len(),
        forall|i: int|
            0 <= i < cache_total(bytes@) ==> #[trigger] final(out)@[i] == cache_value(bytes@, i),
        forall|i: int|
            cache_total(bytes@) <= i < old(out)@.len() ==> #[trigger] final(out)@[i] == old(out)@[i],
{
    let out_len = out.len();
    let bytes_len = bytes.len();
    let w = word_width();
    let total = count_from_bytes(bytes);
    let mut i: usize = 0;
    while i < total
        invariant
            total == cache_total(bytes@),
            w == word_bytes(),
            bytes_len == bytes@.len(),
            cache_readable(bytes@, out@.len() as int),
            out@.len() == old(out)@.len(),
            i <= total,
            forall|j: int| 0 <= j < i ==> #[trigger] out@[j] == cache_value(bytes@, j),
            forall|j: int| total <= j < out@.len() ==> #[trigger] out@[j] == old(out)@[j],
        decreases total - i,
    {
        assert(w + 4 * i + 4 <= bytes@.len());
        let at = w + 4 * i;
        let v = u32_from_le_bytes(&bytes[at..at + 4]);
        out[i] = v;
        i = i + 1;
    }
}

/// Reading back the cache file of `values` gives the values, whenever it
/// announces exactly as many values as it stores, at least one, and the
/// buffer has room for them.
pub proof fn law_song_cache_round_trip(values: Seq<u32>, out_len: int)
    requires
        1 <= values.len() <= out_len,
        values.len() <= usize::MAX,
    ensures
        cache_readable(cache_bytes(values.len() as usize, values), out_len),
        cache_total(cache_bytes(values.len() as usize, values)) == values.len(),
        forall|i: int|
            0 <= i < values.len() ==> #[trigger] cache_value(
                cache_bytes(values.len() as usize, values),
                i,
            ) == values[i],
{
    lemma_auto_spec_u64_to_from_le_bytes();
    lemma_auto_spec_u32_to_from_le_bytes();
    lemma_values_bytes(values);
    let n = values.len() as usize;
    let b = cache_bytes(n, values);
    let w = word_bytes();
    assert(b.subrange(0, w) =~= count_bytes(n));
    if usize::BITS == 64 {
        assert(spec_u64_from_le_bytes(spec_u64_to_le_bytes(n as u64)) == n as u64);
    } else {
        assert(spec_u32_from_le_bytes(spec_u32_to_le_bytes(n as u32)) == n as u32);
    }
    assert forall|i: int| 0 <= i < values.len() implies #[trigger] cache_value(b, i) == values[i] by {
        assert(b.subrange(w + 4 * i, w + 4 * i + 4) =~= values_bytes(values).subrange(4 * i, 4 * i + 4));
    }
}

} // verus!
