//! Command handling of the player window.
//!
//! The window sends one command per user gesture (play/pause, stop, pick a
//! file, ...).  `UICommandsReceiver` holds what the player remembers between
//! commands and decides, for each command, how that memory changes and which
//! effects the shell around it has to perform (open a file, start the sound
//! card, update a label, ...).  The effects come back as a list of
//! `UiAction`s, in the order in which they have to be performed.
use vstd::prelude::*;

verus! {

/// Label shown in front of a file that was picked in the file list.
pub open spec fn selected_prefix() -> Seq<char> {
    seq!['F', 'i', 'l', 'e', ' ', 's', 'e', 'l', 'e', 'c', 't', 'e', 'd', ' ', ':', ' ']
}

/// Label shown when the picked index does not name a listed file.
pub open spec fn selection_error() -> Seq<char> {
    seq![
        'E', 'r', 'r', 'o', 'r', ' ', 'w', 'h', 'i', 'l', 'e', ' ', 's', 'e', 'l', 'e', 'c', 't', 'i',
        'n', 'g', ' ', 'f', 'i', 'l', 'e',
    ]
}

/// Folder into which imported files are copied.
pub open spec fn import_folder() -> Seq<char> {
    seq!['.', '/', 'd', 'a', 't', 'a', '_', 's', 'a', 'm', 'p', 'l', 'e', 's', '/']
}

/// `s` without the leading `p`, or `s` itself when it does not start with `p`.
pub open spec fn strip_prefix(s: Seq<char>, p: Seq<char>) -> Seq<char> {
    if p.len() <= s.len() && s.subrange(0, p.len() as int) == p {
        s.subrange(p.len() as int, s.len() as int)
    } else {
        s
    }
}

/// The path that is opened for a given content of the selection label.
pub open spec fn load_path(selected: Seq<char>) -> Seq<char> {
    strip_prefix(selected, selected_prefix())
}

/// A command sent by the window, together with the result of the outside
/// work that the command needed before it could be decided.
#[derive(Debug, PartialEq, Eq)]
pub enum Command {
    /// The files found under the sample folder (listed by the caller).
    FetchDirectory(Vec<String>),
    /// The user picked the entry with this index in the file list.
    ClickedInsidePopup(i32),
    /// The user confirmed the picked file.
    LoadFile,
    /// The file asked for by `UiAction::OpenFile` was opened; the payload is
    /// its total number of samples when the container announces it.
    FileOpened(Option<u64>),
    /// The play/pause button was pressed.
    SwitchPlayMode,
    /// The user imported a file; the payload is its file name, `None` when
    /// the dialog was closed without a file.
    ImportFile(Option<String>),
    /// The progress timer fired; the payload is the number of samples played.
    UpdateProgressBar(u64),
    /// The stop button was pressed.
    StopSamples,
    /// The volume slider moved; the payload is the bit pattern of the
    /// slider's 32-bit float value.
    ChangeVolume(u32),
    /// The user asked for a sine wave.
    SendSinWave,
    /// The user asked for the sine graph.
    SendSinGraph,
    /// The window is being closed.
    Quit,
}

/// An effect that the shell around the receiver performs.
#[derive(Debug, PartialEq, Eq)]
pub enum UiAction {
    /// Show these entries in the file list.
    ShowFileList(Vec<String>),
    /// Show this text as the current selection.
    ShowSelectedFile(String),
    /// Show this text as the title of the loaded file.
    ShowTitle(String),
    /// Show whether the stream is playing.
    ShowPlaying(bool),
    /// Start (or resume) the current player.
    Play,
    /// Pause the current player.
    Pause,
    /// Drop the current player.
    DropPlayer,
    /// Open the audio file at this path and build a player for it; report
    /// the outcome with `Command::FileOpened`.
    OpenFile(String),
    /// Copy the imported file to this path.
    CopyImport(String),
    /// Show the progress `played / total`.
    ShowProgress(u64, u64),
    /// Set the volume of the current player from the slider value whose
    /// 32-bit float bit pattern this is (the volume is that value / 50).
    SetVolume(u32),
    /// Build a sine wave player and start it.
    StartSineWave,
    /// Draw the sine graph.
    DrawSinGraph,
    /// Leave the event loop.
    Quit,
}

/// Mathematical form of a `Command`.
pub enum CommandModel {
    FetchDirectory(Seq<Seq<char>>),
    ClickedInsidePopup(i32),
    LoadFile,
    FileOpened(Option<u64>),
    SwitchPlayMode,
    ImportFile(Option<Seq<char>>),
    UpdateProgressBar(u64),
    StopSamples,
    ChangeVolume(u32),
    SendSinWave,
    SendSinGraph,
    Quit,
}

/// Mathematical form of a `UiAction`.
pub enum ActionModel {
    ShowFileList(Seq<Seq<char>>),
    ShowSelectedFile(Seq<char>),
    ShowTitle(Seq<char>),
    ShowPlaying(bool),
    Play,
    Pause,
    DropPlayer,
    OpenFile(Seq<char>),
    CopyImport(Seq<char>),
    ShowProgress(u64, u64),
    SetVolume(u32),
    StartSineWave,
    DrawSinGraph,
    Quit,
}

impl View for Command {
    type V = CommandModel;

    open spec fn view(&self) -> CommandModel {
        match self {
            Command::FetchDirectory(files) => CommandModel::FetchDirectory(files.deep_view()),
            Command::ClickedInsidePopup(i) => CommandModel::ClickedInsidePopup(*i),
            Command::LoadFile => CommandModel::LoadFile,
            Command::FileOpened(total) => CommandModel::FileOpened(*total),
            Command::SwitchPlayMode => CommandModel::SwitchPlayMode,
            Command::ImportFile(name) => CommandModel::ImportFile(
                match name {
                    Some(n) => Some(n@),
                    None => None,
                },
            ),
            Command::UpdateProgressBar(cur) => CommandModel::UpdateProgressBar(*cur),
            Command::StopSamples => CommandModel::StopSamples,
            Command::ChangeVolume(v) => CommandModel::ChangeVolume(*v),
            Command::SendSinWave => CommandModel::SendSinWave,
            Command::SendSinGraph => CommandModel::SendSinGraph,
            Command::Quit => CommandModel::Quit,
        }
    }
}

impl DeepView for UiAction {
    type V = ActionModel;

    open spec fn deep_view(&self) -> ActionModel {
        match self {
            UiAction::ShowFileList(files) => ActionModel::ShowFileList(files.deep_view()),
            UiAction::ShowSelectedFile(s) => ActionModel::ShowSelectedFile(s@),
            UiAction::ShowTitle(s) => ActionModel::ShowTitle(s@),
            UiAction::ShowPlaying(b) => ActionModel::ShowPlaying(*b),
            UiAction::Play => ActionModel::Play,
            UiAction::Pause => ActionModel::Pause,
            UiAction::DropPlayer => ActionModel::DropPlayer,
            UiAction::OpenFile(s) => ActionModel::OpenFile(s@),
            UiAction::CopyImport(s) => ActionModel::CopyImport(s@),
            UiAction::ShowProgress(cur, total) => ActionModel::ShowProgress(*cur, *total),
            UiAction::SetVolume(v) => ActionModel::SetVolume(*v),
            UiAction::StartSineWave => ActionModel::StartSineWave,
            UiAction::DrawSinGraph => ActionModel::DrawSinGraph,
            UiAction::Quit => ActionModel::Quit,
        }
    }
}

/// What the receiver remembers between two commands.
pub struct ReceiverModel {
    /// Entries of the file list, as last fetched.
    pub files: Seq<Seq<char>>,
    /// Text of the selection label; the file to load is read from it.
    pub selected_file: Seq<char>,
    /// Whether a player (for a file or a sine wave) exists.
    pub has_player: bool,
    /// Whether the stream is considered playing.
    pub is_playing: bool,
    /// Whether a played-samples counter of a loaded file exists.
    pub has_sample_counter: bool,
    /// Total number of samples of the last loaded file, when known.
    pub total_samples: Option<u64>,
}

/// The receiver right after start-up.
pub open spec fn initial_model() -> ReceiverModel {
    ReceiverModel {
        files: Seq::empty(),
        selected_file: Seq::empty(),
        has_player: false,
        is_playing: false,
        has_sample_counter: false,
        total_samples: None,
    }
}

/// A command can be decided in every state, except a progress update while
/// a counter exists but the loaded file did not announce its length.
pub open spec fn accepts(s: ReceiverModel, c: CommandModel) -> bool {
    match c {
        CommandModel::UpdateProgressBar(_) => s.has_sample_counter ==> s.total_samples is Some,
        _ => true,
    }
}

/// The label shown after the user picked entry `index` of the file list.
pub open spec fn selection_label(files: Seq<Seq<char>>, index: i32) -> Seq<char> {
    if 0 <= index < files.len() {
        selected_prefix() + files[index as int]
    } else {
        selection_error()
    }
}

/// State and effects after one command.
pub open spec fn transition(s: ReceiverModel, c: CommandModel) -> (ReceiverModel, Seq<ActionModel>) {
    match c {
        CommandModel::FetchDirectory(list) => (
            ReceiverModel { files: list, ..s },
            seq![ActionModel::ShowFileList(list)],
        ),
        CommandModel::ClickedInsidePopup(index) => {
            let label = selection_label(s.files, index);
            (ReceiverModel { selected_file: label, ..s }, seq![ActionModel::ShowSelectedFile(label)])
        },
        CommandModel::LoadFile => (
            ReceiverModel { is_playing: false, ..s },
            seq![ActionModel::OpenFile(load_path(s.selected_file))],
        ),
        CommandModel::FileOpened(total) => (
            ReceiverModel {
                has_player: true,
                has_sample_counter: true,
                total_samples: total,
                ..s
            },
            seq![ActionModel::ShowTitle(s.selected_file)],
        ),
        CommandModel::SwitchPlayMode => {
            let playing = !s.is_playing;
            (
                ReceiverModel { is_playing: playing, ..s },
                if s.has_player {
                    seq![
                        ActionModel::ShowPlaying(playing),
                        if playing {
                            ActionModel::Play
                        } else {
                            ActionModel::Pause
                        },
                    ]
                } else {
                    Seq::empty()
                },
            )
        },
        CommandModel::ImportFile(name) => match name {
            None => (s, Seq::empty()),
            Some(n) => {
                let dest = import_folder() + n;
                (
                    ReceiverModel { selected_file: dest, is_playing: false, ..s },
                    seq![ActionModel::CopyImport(dest), ActionModel::OpenFile(load_path(dest))],
                )
            },
        },
        CommandModel::UpdateProgressBar(current) => if s.has_sample_counter {
            (s, seq![ActionModel::ShowProgress(current, s.total_samples.unwrap())])
        } else {
            (s, Seq::empty())
        },
        CommandModel::StopSamples => (
            ReceiverModel { has_player: false, is_playing: false, ..s },
            seq![ActionModel::DropPlayer, ActionModel::OpenFile(load_path(s.selected_file))],
        ),
        CommandModel::ChangeVolume(value) => if s.has_player {
            (s, seq![ActionModel::SetVolume(value)])
        } else {
            (s, Seq::empty())
        },
        CommandModel::SendSinWave => (
            ReceiverModel { has_player: true, ..s },
            seq![ActionModel::StartSineWave],
        ),
        CommandModel::SendSinGraph => (s, seq![ActionModel::DrawSinGraph]),
        CommandModel::Quit => (s, seq![ActionModel::Quit]),
    }
}

/// Memory of the player window between two commands.
pub struct UICommandsReceiver {
    files: Vec<String>,
    selected_file: String,
    has_player: bool,
    is_playing: bool,
    has_sample_counter: bool,
    total_samples: Option<u64>,
}

impl View for UICommandsReceiver {
    type V = ReceiverModel;

    closed spec fn view(&self) -> ReceiverModel {
        ReceiverModel {
            files: self.files.deep_view(),
            selected_file: self.selected_file@,
            has_player: self.has_player,
            is_playing: self.is_playing,
            has_sample_counter: self.has_sample_counter,
            total_samples: self.total_samples,
        }
    }
}


/// A fresh `String` holding the selection prefix.
fn prefix_string() -> (r: String)
    ensures
        r@ == selected_prefix(),
{
    let r = String::from_str("File selected : ");
    proof {
        reveal_strlit("File selected : ");
    }
    assert(r@ =~= selected_prefix());
    r
}

/// A fresh `String` holding the selection error message.
fn error_string() -> (r: String)
    ensures
        r@ == selection_error(),
{
    let r = String::from_str("Error while selecting file");
    proof {
        reveal_strlit("Error while selecting file");
    }
    assert(r@ =~= selection_error());
    r
}

/// A fresh `String` holding the import folder.
fn import_folder_string() -> (r: String)
    ensures
        r@ == import_folder(),
{
    let r = String::from_str("./data_samples/");
    proof {
        reveal_strlit("./data_samples/");
    }
    assert(r@ =~= import_folder());
    r
}

/// `head` followed by `tail`.
fn concat_strings(head: String, tail: &String) -> (r: String)
    ensures
        r@ == head@ + tail@,
{
    let mut r = head;
    r.append(tail.as_str());
    r
}

/// The path to open for the selection label `selected`.
pub fn path_to_load(selected: &String) -> (r: String)
    ensures
        r@ == load_path(selected@),
{
    let p = prefix_string();
    let ps = p.as_str();
    let ss = selected.as_str();
    let plen = ps.unicode_len();
    let slen = ss.unicode_len();
    if plen > slen {
        return selected.clone();
    }
    let mut i: usize = 0;
    while i < plen
        invariant
            i <= plen <= slen,
            ps@.len() == plen,
            ss@.len() == slen,
            ps@ == selected_prefix(),
            ss@ == selected@,
            forall|j: int| 0 <= j < i ==> ss@[j] == ps@[j],
        decreases plen - i,
    {
        if ss.get_char(i) != ps.get_char(i) {
            assert(ss@.subrange(0, plen as int)[i as int] != ps@[i as int]);
            return selected.clone();
        }
        i = i + 1;
    }
    assert(ss@.subrange(0, plen as int) =~= ps@);
    String::from_str(ss.substring_char(plen, slen))
}

/// A copy of a list of names.
fn clone_names(v: &Vec<String>) -> (r: Vec<String>)
    ensures
        r.deep_view() == v.deep_view(),
{
    let mut r: Vec<String> = Vec::new();
    let mut i: usize = 0;
    while i < v.len()
        invariant
            i <= v.len(),
            r@.len() == i,
            forall|k: int| 0 <= k < i ==> #[trigger] r@[k]@ == v@[k]@,
        decreases v.len() - i,
    {
        let s = v[i].clone();
        r.push(s);
        i = i + 1;
    }
    assert(r.deep_view() =~= v.deep_view());
    r
}

impl UICommandsReceiver {
    /// A receiver with an empty file list, an empty selection, no player,
    /// not playing and no sample counter.
    pub fn new() -> (r: Self)
        ensures
            r@ == initial_model(),
    {
        let r = UICommandsReceiver {
            files: Vec::new(),
            selected_file: String::new(),
            has_player: false,
            is_playing: false,
            has_sample_counter: false,
            total_samples: None,
        };
        assert(r@.files =~= Seq::<Seq<char>>::empty());
        r
    }

    /// Entries of the file list.
    pub fn files(&self) -> (r: &Vec<String>)
        ensures
            r.deep_view() == self@.files,
    {
        &self.files
    }

    /// Text of the selection label.
    pub fn selected_file(&self) -> (r: &String)
        ensures
            r@ == self@.selected_file,
    {
        &self.selected_file
    }

    /// Whether a player exists.
    pub fn has_player(&self) -> (r: bool)
        ensures
            r == self@.has_player,
    {
        self.has_player
    }

    /// Whether the stream is considered playing.
    pub fn is_playing(&self) -> (r: bool)
        ensures
            r == self@.is_playing,
    {
        self.is_playing
    }

    /// Whether a played-samples counter exists.
    pub fn has_sample_counter(&self) -> (r: bool)
        ensures
            r == self@.has_sample_counter,
    {
        self.has_sample_counter
    }

    /// Total number of samples of the last loaded file.
    pub fn total_samples(&self) -> (r: Option<u64>)
        ensures
            r == self@.total_samples,
    {
        self.total_samples
    }

    /// Whether `command` can be decided in the current state.
    pub fn accepts(&self, command: &Command) -> (r: bool)
        ensures
            r == accepts(self@, command@),
    {
        match command {
            Command::UpdateProgressBar(_) => !self.has_sample_counter || self.total_samples.is_some(),
            _ => true,
        }
    }

    /// Decides `command`: updates the memory and returns the effects to
    /// perform, in order.
    pub fn match_command(&mut self, command: Command) -> (actions: Vec<UiAction>)
        requires
            accepts(old(self)@, command@),
        ensures
            final(self)@ == transition(old(self)@, command@).0,
            actions.deep_view() == transition(old(self)@, command@).1,
    {
        let ghost s = self@;
        let ghost c = command@;
        let mut actions: Vec<UiAction> = Vec::new();
        match command {
            Command::FetchDirectory(list) => {
                let shown = clone_names(&list);
                self.files = list;
                actions.push(UiAction::ShowFileList(shown));
            },
            Command::ClickedInsidePopup(index) => {
                let label = if 0 <= index && (index as usize) < self.files.len() {
                    concat_strings(prefix_string(), &self.files[index as usize])
                } else {
                    error_string()
                };
                let shown = label.clone();
                self.selected_file = label;
                actions.push(UiAction::ShowSelectedFile(shown));
            },
            Command::LoadFile => {
                self.is_playing = false;
                actions.push(UiAction::OpenFile(path_to_load(&self.selected_file)));
            },
            Command::FileOpened(total) => {
                self.has_sample_counter = true;
                self.total_samples = total;
                self.has_player = true;
                actions.push(UiAction::ShowTitle(self.selected_file.clone()));
            },
            Command::SwitchPlayMode => {
                self.is_playing = !self.is_playing;
                let playing = self.is_playing;
                if self.has_player {
                    actions.push(UiAction::ShowPlaying(playing));
                    if playing {
                        actions.push(UiAction::Play);
                    } else {
                        actions.push(UiAction::Pause);
                    }
                }
            },
            Command::ImportFile(name) => {
                match name {
                    None => {},
                    Some(n) => {
                        let dest = concat_strings(import_folder_string(), &n);
                        let target = path_to_load(&dest);
                        let copy_to = dest.clone();
                        self.selected_file = dest;
                        self.is_playing = false;
                        actions.push(UiAction::CopyImport(copy_to));
                        actions.push(UiAction::OpenFile(target));
                    },
                }
            },
            Command::UpdateProgressBar(current) => {
                if self.has_sample_counter {
                    match self.total_samples {
                        Some(total) => actions.push(UiAction::ShowProgress(current, total)),
                        None => {},
                    }
                }
            },
            Command::StopSamples => {
                self.has_player = false;
                self.is_playing = false;
                actions.push(UiAction::DropPlayer);
                actions.push(UiAction::OpenFile(path_to_load(&self.selected_file)));
            },
            Command::ChangeVolume(value) => {
                if self.has_player {
                    actions.push(UiAction::SetVolume(value));
                }
            },
            Command::SendSinWave => {
                self.has_player = true;
                actions.push(UiAction::StartSineWave);
            },
            Command::SendSinGraph => {
                actions.push(UiAction::DrawSinGraph);
            },
            Command::Quit => {
                actions.push(UiAction::Quit);
            },
        }
        assert(self@ =~= transition(s, c).0);
        assert(actions.deep_view() =~= transition(s, c).1);
        actions
    }
}


/// Removing a prefix that was just put in front gives back the original text.
pub proof fn lemma_strip_prefix_of_concat(p: Seq<char>, f: Seq<char>)
    ensures
        strip_prefix(p + f, p) == f,
{
    assert((p + f).subrange(0, p.len() as int) =~= p);
    assert((p + f).subrange(p.len() as int, (p + f).len() as int) =~= f);
}

/// Pressing play/pause twice brings the receiver back to where it was; with
/// a player, the first press shows and performs the opposite of the second.
pub proof fn law_switch_play_mode_twice(s: ReceiverModel)
    ensures
        ({
            let (s1, a1) = transition(s, CommandModel::SwitchPlayMode);
            let (s2, a2) = transition(s1, CommandModel::SwitchPlayMode);
            &&& s2 == s
            &&& s1.is_playing == !s.is_playing
            &&& s.has_player ==> a1 == seq![
                ActionModel::ShowPlaying(!s.is_playing),
                if s.is_playing { ActionModel::Pause } else { ActionModel::Play },
            ]
            &&& s.has_player ==> a2 == seq![
                ActionModel::ShowPlaying(s.is_playing),
                if s.is_playing { ActionModel::Play } else { ActionModel::Pause },
            ]
            &&& !s.has_player ==> a1.len() == 0 && a2.len() == 0
        }),
{
}

/// Picking a listed file and confirming it opens exactly that file, and the
/// selection label names it.
pub proof fn law_picked_file_is_loaded(s: ReceiverModel, index: i32)
    requires
        0 <= index < s.files.len(),
    ensures
        ({
            let (s1, a1) = transition(s, CommandModel::ClickedInsidePopup(index));
            let (s2, a2) = transition(s1, CommandModel::LoadFile);
            &&& s1.selected_file == selected_prefix() + s.files[index as int]
            &&& a1 == seq![ActionModel::ShowSelectedFile(s1.selected_file)]
            &&& a2 == seq![ActionModel::OpenFile(s.files[index as int])]
            &&& !s2.is_playing
        }),
{
    lemma_strip_prefix_of_concat(selected_prefix(), s.files[index as int]);
}

/// Picking an index that names no listed file (negative or past the end)
/// shows the error message, and confirming then tries to open a file named
/// like that message.
pub proof fn law_bad_pick_shows_error(s: ReceiverModel, index: i32)
    requires
        index < 0 || index >= s.files.len(),
    ensures
        ({
            let (s1, a1) = transition(s, CommandModel::ClickedInsidePopup(index));
            let (s2, a2) = transition(s1, CommandModel::LoadFile);
            &&& s1.selected_file == selection_error()
            &&& a1 == seq![ActionModel::ShowSelectedFile(selection_error())]
            &&& a2 == seq![ActionModel::OpenFile(selection_error())]
        }),
{
    let e = selection_error();
    let p = selected_prefix();
    assert(e.subrange(0, p.len() as int)[0] != p[0]);
}

/// Importing a file copies it into the sample folder and opens the copy;
/// nothing happens when no file was picked.
pub proof fn law_imported_file_is_loaded(s: ReceiverModel, name: Seq<char>)
    ensures
        ({
            let dest = import_folder() + name;
            let (s1, a1) = transition(s, CommandModel::ImportFile(Some(name)));
            &&& s1.selected_file == dest
            &&& !s1.is_playing
            &&& a1 == seq![ActionModel::CopyImport(dest), ActionModel::OpenFile(dest)]
        }),
        transition(s, CommandModel::ImportFile(None)) == (s, Seq::<ActionModel>::empty()),
{
    let dest = import_folder() + name;
    let p = selected_prefix();
    if p.len() <= dest.len() {
        assert(dest.subrange(0, p.len() as int)[0] != p[0]);
    }
}

/// Stopping drops the player, leaves the stream not playing and reopens the
/// file that loading the current selection would open.
pub proof fn law_stop_reloads_selection(s: ReceiverModel)
    ensures
        ({
            let (s1, a1) = transition(s, CommandModel::StopSamples);
            let (s2, a2) = transition(s, CommandModel::LoadFile);
            &&& !s1.is_playing && !s1.has_player
            &&& a1 == seq![ActionModel::DropPlayer, a2[0]]
            &&& s1.selected_file == s.selected_file
        }),
{
}

/// After a stop, once the file is reopened, play/pause starts playing the
/// fresh player from its beginning (the previous one was dropped).
pub proof fn law_stop_then_play_restarts(s: ReceiverModel, total: Option<u64>)
    ensures
        ({
            let (s1, a1) = transition(s, CommandModel::StopSamples);
            let (s2, a2) = transition(s1, CommandModel::FileOpened(total));
            let (s3, a3) = transition(s2, CommandModel::SwitchPlayMode);
            &&& a1[0] == ActionModel::DropPlayer
            &&& s3.is_playing
            &&& a3 == seq![ActionModel::ShowPlaying(true), ActionModel::Play]
        }),
{
}

/// After a file is opened, the progress timer reports the samples played
/// against the length the file announced; before any file was opened it
/// reports nothing.
pub proof fn law_progress_after_open(s: ReceiverModel, total: u64, current: u64)
    ensures
        ({
            let (s1, a1) = transition(s, CommandModel::FileOpened(Some(total)));
            let (s2, a2) = transition(s1, CommandModel::UpdateProgressBar(current));
            &&& accepts(s1, CommandModel::UpdateProgressBar(current))
            &&& s1.has_player
            &&& a1 == seq![ActionModel::ShowTitle(s.selected_file)]
            &&& s2 == s1
            &&& a2 == seq![ActionModel::ShowProgress(current, total)]
        }),
        transition(initial_model(), CommandModel::UpdateProgressBar(current)) == (
            initial_model(),
            Seq::<ActionModel>::empty(),
        ),
{
}

/// Fetching the file list stores exactly the fetched list, shows every
/// fetched entry (the shown list is the fetched list, whatever its length)
/// and changes nothing else.
pub proof fn law_fetch_directory_shows_every_file(s: ReceiverModel, list: Seq<Seq<char>>)
    ensures
        ({
            let (s1, a1) = transition(s, CommandModel::FetchDirectory(list));
            &&& s1.files == list
            &&& s1.selected_file == s.selected_file
            &&& s1.has_player == s.has_player
            &&& s1.is_playing == s.is_playing
            &&& s1.has_sample_counter == s.has_sample_counter
            &&& s1.total_samples == s.total_samples
            &&& a1.len() == 1
            &&& a1[0] matches ActionModel::ShowFileList(shown) && shown == list
            &&& shown_len(a1[0]) == list.len()
        }),
{
}

/// Number of entries an action shows in the file list (zero for the other actions).
pub open spec fn shown_len(a: ActionModel) -> nat {
    match a {
        ActionModel::ShowFileList(shown) => shown.len(),
        _ => 0,
    }
}

/// Asking for a sine wave always starts one, whether or not a player
/// existed (a file player is replaced), and leaves a player in place; the
/// rest of the state is unchanged.
pub proof fn law_sine_wave_always_starts(s: ReceiverModel)
    ensures
        ({
            let (s1, a1) = transition(s, CommandModel::SendSinWave);
            &&& a1 == seq![ActionModel::StartSineWave]
            &&& s1.has_player
            &&& s1.files == s.files
            &&& s1.selected_file == s.selected_file
            &&& s1.is_playing == s.is_playing
            &&& s1.has_sample_counter == s.has_sample_counter
            &&& s1.total_samples == s.total_samples
        }),
{
}

/// Quitting leaves the event loop in every state, playing or not, and
/// changes nothing else.
pub proof fn law_quit_leaves_event_loop(s: ReceiverModel)
    ensures
        transition(s, CommandModel::Quit).0 == s,
        transition(s, CommandModel::Quit).1 == seq![ActionModel::Quit],
{
}

/// Picking an entry changes only the selection label; loading changes only
/// the play state (to not playing) and opens the selected path without its
/// label; an opened file brings a player, a counter and its announced
/// length, and shows the selection as title.
pub proof fn law_pick_load_open_touch_only_their_fields(
    s: ReceiverModel,
    index: i32,
    total: Option<u64>,
)
    ensures
        ({
            let (s1, _a1) = transition(s, CommandModel::ClickedInsidePopup(index));
            s1 == ReceiverModel { selected_file: s1.selected_file, ..s }
        }),
        ({
            let (s2, a2) = transition(s, CommandModel::LoadFile);
            &&& s2 == ReceiverModel { is_playing: false, ..s }
            &&& a2 == seq![ActionModel::OpenFile(strip_prefix(s.selected_file, selected_prefix()))]
        }),
        ({
            let (s3, a3) = transition(s, CommandModel::FileOpened(total));
            &&& s3.has_player && s3.has_sample_counter && s3.total_samples == total
            &&& s3.files == s.files && s3.selected_file == s.selected_file
            &&& s3.is_playing == s.is_playing
            &&& a3 == seq![ActionModel::ShowTitle(s.selected_file)]
        }),
{
}

/// Moving the volume slider sets the volume of the current player to the
/// slider value (handed on unchanged) and changes nothing else; without a
/// player it does nothing.
pub proof fn law_volume_slider_sets_player_volume(s: ReceiverModel, value: u32)
    ensures
        ({
            let (s1, a1) = transition(s, CommandModel::ChangeVolume(value));
            &&& s1 == s
            &&& s.has_player ==> a1 == seq![ActionModel::SetVolume(value)]
            &&& !s.has_player ==> a1.len() == 0
        }),
{
}

} // verus!
