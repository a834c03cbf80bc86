//! Sound side of the player: sample buffers, spectrum layout and cache.
pub mod fft;
pub mod render_song;
pub mod track_wave;
pub mod file_reader;
pub mod play;
