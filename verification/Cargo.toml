[package]
name = "audio_player"
version = "0.1.0"
edition = "2021"
publish = false

[dependencies]
atomic_float = "=1.1.0"
cpal = "=0.18.2"
eframe = { version = "=0.37.0", default-features = false, features = ["default_fonts", "glow", "x11"] }
egui = "=0.37.0"
env_logger = "=0.11.11"
log = "=0.4.35"
rfd = "=0.17.2"
rustfft = "=6.4.1"
symphonia = { version = "=0.5.5", features = ["mp3"] }
tiny-skia = "=0.12.0"
