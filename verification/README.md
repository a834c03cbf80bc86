# audio_player

Decision logic of a small audio player, verified with Verus.

- `src/slint_logic.rs`: what the player window remembers between commands
  (file list, selection, player, play state, progress counter) and, for each
  command, the new state and the ordered list of effects to perform.
- `src/sound_design/fft.rs`: layout of the spectrum buffer (one slot of
  `size / 2` values per frame and track) and the cutting of a track into
  frames.
- `src/sound_design/render_song.rs`: size of the spectrum buffer of a song
  and the byte format of the file that caches it.
- `src/sound_design/track_wave.rs`, `src/ui/dancing_wave.rs`: the part of the
  spectrum buffer that the display reads for a frame and a track.
- `src/sound_design/file_reader.rs`, `src/sound_design/play.rs`: sample count
  of a stream, the buffer of decoded samples, the sound card buffer size.

`app/` is the program around it: decoding (symphonia), the FFT (rustfft),
playback (cpal), volume scaling and drawing (egui, tiny-skia), which work on
files, devices and floating-point samples.
