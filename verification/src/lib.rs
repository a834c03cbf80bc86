//! Decision logic of a small audio player: command handling of the player
//! window, the layout of the spectrum buffer, the on-disk spectrum cache and
//! the sample buffers that feed the sound card.
pub mod slint_build;
pub mod slint_logic;
pub mod slint_utils;
pub mod sound_design;
pub mod ui;
