use audio_player::sound_design::render_song::{is_readable_song_cache, parse_song_cache, song_cache_bytes};

#[test]
fn cache_layout() {
    let bytes = song_cache_bytes(2, &[0x0403_0201, 0xddcc_bbaa]);
    let mut expected = 2usize.to_le_bytes().to_vec();
    expected.extend_from_slice(&[0x01, 0x02, 0x03, 0x04, 0xaa, 0xbb, 0xcc, 0xdd]);
    assert_eq!(bytes, expected);
    assert_eq!(bytes.len(), std::mem::size_of::<usize>() + 8);
}

#[test]
fn cache_round_trip_of_floats() {
    let values: Vec<f32> = vec![0.0, 1.5, -2.25, 1024.0, f32::MAX];
    let bits: Vec<u32> = values.iter().map(|v| v.to_bits()).collect();
    let bytes = song_cache_bytes(values.len(), &bits);
    let mut out = vec![7u32; 8];
    assert!(is_readable_song_cache(&bytes, out.len()));
    parse_song_cache(&bytes, &mut out);
    let back: Vec<f32> = out[..5].iter().map(|b| f32::from_bits(*b)).collect();
    assert_eq!(back, values);
    assert_eq!(&out[5..], &[7, 7, 7]);
}

#[test]
fn unreadable_caches() {
    // shorter than the header
    assert!(!is_readable_song_cache(&[1, 0, 0], 4));
    // announces no value
    assert!(!is_readable_song_cache(&song_cache_bytes(0, &[]), 4));
    // announces more values than it stores
    assert!(!is_readable_song_cache(&song_cache_bytes(3, &[1, 2]), 4));
    // announces more values than the buffer holds
    assert!(!is_readable_song_cache(&song_cache_bytes(3, &[1, 2, 3]), 2));
    // trailing bytes are ignored
    let mut bytes = song_cache_bytes(1, &[9]);
    bytes.push(0xff);
    assert!(is_readable_song_cache(&bytes, 1));
    let mut out = vec![0u32];
    parse_song_cache(&bytes, &mut out);
    assert_eq!(out, vec![9]);
}
