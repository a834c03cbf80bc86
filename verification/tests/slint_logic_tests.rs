use audio_player::slint_logic::{path_to_load, Command, UICommandsReceiver, UiAction};

fn s(x: &str) -> String {
    String::from(x)
}

fn listed() -> UICommandsReceiver {
    let mut r = UICommandsReceiver::new();
    let actions = r.match_command(Command::FetchDirectory(vec![
        s("./data_samples/test.mp3"),
        s("./data_samples/sample-2.ogg"),
    ]));
    assert_eq!(
        actions,
        vec![UiAction::ShowFileList(vec![
            s("./data_samples/test.mp3"),
            s("./data_samples/sample-2.ogg")
        ])]
    );
    r
}

#[test]
fn test_init_receiver() {
    let receiver = UICommandsReceiver::new();
    assert!(receiver.files().is_empty());
    assert!(receiver.selected_file().is_empty());
    assert!(!receiver.has_player());
    assert!(!receiver.is_playing());
    assert!(!receiver.has_sample_counter());
    assert_eq!(receiver.total_samples(), None);
}

#[test]
fn fetch_directory_replaces_the_list() {
    let mut r = listed();
    assert_eq!(r.files().len(), 2);
    let actions = r.match_command(Command::FetchDirectory(vec![s("a.wav")]));
    assert_eq!(actions, vec![UiAction::ShowFileList(vec![s("a.wav")])]);
    assert_eq!(r.files(), &vec![s("a.wav")]);
}

#[test]
fn picked_file_is_loaded() {
    let mut r = listed();
    let actions = r.match_command(Command::ClickedInsidePopup(1));
    assert_eq!(
        actions,
        vec![UiAction::ShowSelectedFile(s("File selected : ./data_samples/sample-2.ogg"))]
    );
    assert_eq!(r.selected_file(), "File selected : ./data_samples/sample-2.ogg");
    let actions = r.match_command(Command::LoadFile);
    assert_eq!(actions, vec![UiAction::OpenFile(s("./data_samples/sample-2.ogg"))]);
    assert!(!r.is_playing());
    let actions = r.match_command(Command::FileOpened(Some(1000)));
    assert_eq!(
        actions,
        vec![UiAction::ShowTitle(s("File selected : ./data_samples/sample-2.ogg"))]
    );
    assert!(r.has_player());
    assert!(r.has_sample_counter());
    assert_eq!(r.total_samples(), Some(1000));
}

#[test]
fn bad_pick_shows_error() {
    let mut r = listed();
    for index in [2, 7, -1, i32::MIN] {
        let actions = r.match_command(Command::ClickedInsidePopup(index));
        assert_eq!(actions, vec![UiAction::ShowSelectedFile(s("Error while selecting file"))]);
        let actions = r.match_command(Command::LoadFile);
        assert_eq!(actions, vec![UiAction::OpenFile(s("Error while selecting file"))]);
    }
}

#[test]
fn switch_play_mode_twice() {
    let mut r = listed();
    r.match_command(Command::ClickedInsidePopup(0));
    r.match_command(Command::LoadFile);
    r.match_command(Command::FileOpened(None));
    let a1 = r.match_command(Command::SwitchPlayMode);
    assert_eq!(a1, vec![UiAction::ShowPlaying(true), UiAction::Play]);
    assert!(r.is_playing());
    let a2 = r.match_command(Command::SwitchPlayMode);
    assert_eq!(a2, vec![UiAction::ShowPlaying(false), UiAction::Pause]);
    assert!(!r.is_playing());
}

#[test]
fn switch_without_player_only_flips() {
    let mut r = UICommandsReceiver::new();
    assert!(r.match_command(Command::SwitchPlayMode).is_empty());
    assert!(r.is_playing());
    assert!(r.match_command(Command::SwitchPlayMode).is_empty());
    assert!(!r.is_playing());
}

#[test]
fn import_copies_and_loads() {
    let mut r = UICommandsReceiver::new();
    let actions = r.match_command(Command::ImportFile(Some(s("song.wav"))));
    assert_eq!(
        actions,
        vec![
            UiAction::CopyImport(s("./data_samples/song.wav")),
            UiAction::OpenFile(s("./data_samples/song.wav"))
        ]
    );
    assert_eq!(r.selected_file(), "./data_samples/song.wav");
    assert!(!r.is_playing());
    assert!(r.match_command(Command::ImportFile(None)).is_empty());
    assert_eq!(r.selected_file(), "./data_samples/song.wav");
}

#[test]
fn stop_reloads_selection() {
    let mut r = listed();
    r.match_command(Command::ClickedInsidePopup(0));
    r.match_command(Command::LoadFile);
    r.match_command(Command::FileOpened(Some(4)));
    r.match_command(Command::SwitchPlayMode);
    let actions = r.match_command(Command::StopSamples);
    assert_eq!(
        actions,
        vec![UiAction::DropPlayer, UiAction::OpenFile(s("./data_samples/test.mp3"))]
    );
    assert!(!r.is_playing());
    assert!(!r.has_player());
}

#[test]
fn progress_after_open() {
    let mut r = UICommandsReceiver::new();
    assert!(r.match_command(Command::UpdateProgressBar(5)).is_empty());
    r.match_command(Command::FileOpened(Some(200)));
    let actions = r.match_command(Command::UpdateProgressBar(50));
    assert_eq!(actions, vec![UiAction::ShowProgress(50, 200)]);
}

#[test]
fn progress_needs_known_length() {
    let mut r = UICommandsReceiver::new();
    assert!(r.accepts(&Command::UpdateProgressBar(1)));
    r.match_command(Command::FileOpened(None));
    assert!(!r.accepts(&Command::UpdateProgressBar(1)));
    assert!(r.accepts(&Command::SwitchPlayMode));
}

#[test]
fn volume_slider_sets_player_volume() {
    let mut r = listed();
    let value = 25.0f32.to_bits();
    assert!(r.match_command(Command::ChangeVolume(value)).is_empty());
    r.match_command(Command::ClickedInsidePopup(0));
    r.match_command(Command::LoadFile);
    r.match_command(Command::FileOpened(Some(3)));
    assert_eq!(r.match_command(Command::ChangeVolume(value)), vec![UiAction::SetVolume(value)]);
    assert_eq!(f32::from_bits(value) / 50.0, 0.5);
    assert!(r.has_player());
    assert!(!r.is_playing());
    assert_eq!(r.selected_file(), "File selected : ./data_samples/test.mp3");
    r.match_command(Command::StopSamples);
    assert!(r.match_command(Command::ChangeVolume(value)).is_empty());
    r.match_command(Command::SendSinWave);
    assert_eq!(r.match_command(Command::ChangeVolume(0)), vec![UiAction::SetVolume(0)]);
}

#[test]
fn sine_wave_graph_and_quit() {
    let mut r = UICommandsReceiver::new();
    assert_eq!(r.match_command(Command::SendSinWave), vec![UiAction::StartSineWave]);
    assert!(r.has_player());
    assert!(!r.is_playing());
    assert_eq!(r.match_command(Command::SendSinGraph), vec![UiAction::DrawSinGraph]);
    assert_eq!(r.match_command(Command::Quit), vec![UiAction::Quit]);
}

#[test]
fn path_to_load_strips_only_the_label() {
    assert_eq!(path_to_load(&s("File selected : a.mp3")), "a.mp3");
    assert_eq!(path_to_load(&s("File selected : ")), "");
    assert_eq!(path_to_load(&s("./data_samples/a.mp3")), "./data_samples/a.mp3");
    assert_eq!(path_to_load(&s("File")), "File");
    assert_eq!(path_to_load(&s("File selected : é♪.wav")), "é♪.wav");
}
