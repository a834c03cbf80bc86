use audio_player::slint_build::SlintBuild;
use audio_player::ui::app_build::AppBuild;
use audio_player::ui::display_clip::DisplayClip;

#[test]
fn app_build_is_named() {
    let b = AppBuild::new();
    assert_eq!(b.get_name(), "AppBuilder");
}

#[test]
fn display_clip_asks_for_repaint() {
    let mut clip = DisplayClip {};
    assert!(clip.ui().request_repaint);
}

#[test]
fn playlist_bar_builds_nothing() {
    let b = SlintBuild {};
    b.build_playlist_bar(String::from("bar"));
}
