//! Widgets of the main window.
pub mod app_build;
pub mod dancing_wave;
pub mod display_clip;
pub mod flashing_kick;
