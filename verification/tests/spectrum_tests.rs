use audio_player::sound_design::fft::{frame_slot, TrackFramer};
use audio_player::sound_design::render_song::song_buffer_len;
use audio_player::sound_design::track_wave::FrameData;
use audio_player::ui::dancing_wave::frame_window;

#[test]
fn frame_slot_formula() {
    // frame 3 of track 1 out of 2 tracks, frames of 2048 samples
    assert_eq!(frame_slot(3, 1, 2, 2048), (3 * 2 * 1024 + 1024, 3 * 2 * 1024 + 2048));
    assert_eq!(frame_slot(0, 0, 1, 2048), (0, 1024));
    // odd sizes round each half down
    assert_eq!(frame_slot(1, 1, 2, 3), (3 + 1, 3 + 1 + 1));
}

#[test]
fn slots_are_disjoint_on_small_layouts() {
    for size in 0..7usize {
        for nb in 1..4usize {
            let mut slots = vec![];
            for f in 0..5usize {
                for t in 0..nb {
                    slots.push(frame_slot(f, t, nb, size));
                }
            }
            for i in 0..slots.len() {
                for j in 0..slots.len() {
                    if i != j {
                        let (a, b) = slots[i];
                        let (c, d) = slots[j];
                        assert!(b <= c || d <= a, "size {} nb {}: {:?} {:?}", size, nb, slots[i], slots[j]);
                    }
                }
            }
        }
    }
}

#[test]
fn song_buffer_len_formula() {
    // 10 samples in frames of 4: 3 frames, one spare, 2 tracks, 2 values each
    assert_eq!(song_buffer_len(10, 2, 4), 2 * 4 * 2);
    assert_eq!(song_buffer_len(8, 1, 4), 3 * 2);
    assert_eq!(song_buffer_len(0, 1, 2048), 1024);
    assert_eq!(song_buffer_len(1, 3, 1), 0);
}

#[test]
fn slots_fit_song_buffer() {
    let (total, nb, size) = (10u64, 2usize, 4usize);
    let len = song_buffer_len(total, nb as u32, size);
    let frames = ((total as usize) + size - 1) / size;
    for f in 0..=frames {
        for t in 0..nb {
            let (_, end) = frame_slot(f, t, nb, size);
            assert!(end <= len);
        }
    }
}

#[test]
fn odd_size_can_overflow_song_buffer() {
    // frames of 3 samples: slots drift past the buffer of 30 samples
    let len = song_buffer_len(30, 1, 3);
    assert_eq!(len, 11);
    assert!(frame_slot(9, 0, 1, 3).1 > len);
}

#[test]
fn framer_cuts_frames() {
    let mut fr: TrackFramer<f32> = TrackFramer::new(4, 1, 2, 16);
    let mut out = vec![];
    for i in 0..10 {
        assert!(fr.can_push());
        if let Some(frame) = fr.push(i as f32) {
            out.push(frame);
        }
    }
    assert_eq!(out.len(), 2);
    assert_eq!(out[0], (vec![0.0, 1.0, 2.0, 3.0], 2, 4));
    assert_eq!(out[1], (vec![4.0, 5.0, 6.0, 7.0], 6, 8));
}

#[test]
fn framer_refuses_slot_past_buffer() {
    let mut fr: TrackFramer<u8> = TrackFramer::new(2, 0, 1, 1);
    assert!(fr.can_push());
    fr.push(0);
    assert!(fr.can_push());
    assert_eq!(fr.push(1), Some((vec![0, 1], 0, 1)));
    fr.push(2);
    assert!(!fr.can_push());
}

#[test]
fn framer_with_size_zero_never_completes() {
    let mut fr: TrackFramer<i32> = TrackFramer::new(0, 0, 1, 0);
    for i in 0..5 {
        assert!(fr.can_push());
        assert_eq!(fr.push(i), None);
    }
}

#[test]
fn frame_window_and_frame_data() {
    let buf: Vec<f32> = (0..16).map(|x| x as f32).collect();
    // 2 tracks, frames of 4 samples: 4 values per frame
    assert_eq!(frame_window(1, 2, 4, buf.len()), Some((4, 8)));
    assert_eq!(frame_window(3, 2, 4, buf.len()), Some((12, 16)));
    assert_eq!(frame_window(4, 2, 4, buf.len()), None);
    let (start, end) = frame_window(1, 2, 4, buf.len()).unwrap();
    let data = FrameData::new(&buf[start..end]);
    assert_eq!(data.get_slice(0, 4), &[4.0, 5.0]);
    assert_eq!(data.get_slice(1, 4), &[6.0, 7.0]);
    assert_eq!(data.freq_buf(), &[4.0, 5.0, 6.0, 7.0]);
    // the display reads the slot the renderer wrote
    let (s, e) = frame_slot(1, 1, 2, 4);
    assert_eq!(&buf[s..e], data.get_slice(1, 4));
}

#[test]
fn track_frames_fit_song_buffer() {
    for (total, nb, size) in [(10u64, 2usize, 4usize), (4096, 3, 2048), (7, 1, 2), (100, 2, 6)] {
        let len = song_buffer_len(total, nb as u32, size);
        for track in 0..nb {
            let mut fr: TrackFramer<u64> = TrackFramer::new(size, track, nb, len);
            let mut frames = 0;
            for i in 0..total {
                assert!(fr.can_push());
                if let Some((samples, _, end)) = fr.push(i) {
                    assert_eq!(samples.len(), size);
                    assert!(end <= len);
                    frames += 1;
                }
            }
            assert_eq!(frames, total as usize / size);
        }
    }
}
