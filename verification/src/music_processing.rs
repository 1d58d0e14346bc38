//! The first, simpler player: a loaded song that one toggle request starts and
//! pauses.

use vstd::prelude::*;
use crate::music_control::MediaProbe;
use crate::path_name::{file_name, path_file_name};

verus! {

/// The shared state of the simple player.
pub struct GlobalState {
    pub song_name: String,
    pub path: String,
    pub is_playing: bool,
    pub is_playable: bool,
    pub is_coverted: bool,
    pub covert_name: String,
}

/// The state with its texts taken as character sequences.
pub struct StateView {
    pub song_name: Seq<char>,
    pub path: Seq<char>,
    pub is_playing: bool,
    pub is_playable: bool,
    pub is_coverted: bool,
    pub covert_name: Seq<char>,
}

impl View for GlobalState {
    type V = StateView;

    open spec fn view(&self) -> StateView {
        StateView {
            song_name: self.song_name@,
            path: self.path@,
            is_playing: self.is_playing,
            is_playable: self.is_playable,
            is_coverted: self.is_coverted,
            covert_name: self.covert_name@,
        }
    }
}

impl GlobalState {
    /// The state the simple player starts in.
    pub fn new() -> (res: GlobalState)
        ensures
            res@ == (StateView {
                song_name: "tmp"@,
                path: "./"@,
                is_playing: false,
                is_playable: false,
                is_coverted: false,
                covert_name: "tmp_converted"@,
            }),
    {
        GlobalState {
            song_name: String::from_str("tmp"),
            path: String::from_str("./"),
            is_playing: false,
            is_playable: false,
            is_coverted: false,
            covert_name: String::from_str("tmp_converted"),
        }
    }
}

/// Nothing to set up: the simple player starts from its initial state.
pub fn init_processing() {
}

/// The state after a playable file at `path`, named `name`, was dropped.
pub open spec fn input_next(s: StateView, path: Seq<char>, name: Seq<char>) -> StateView {
    StateView {
        song_name: name,
        path,
        is_playable: true,
        is_playing: false,
        is_coverted: false,
        ..s
    }
}

/// Takes a dropped file as the song to play, and answers with its name; a file
/// that cannot be opened or decoded is refused with a message and changes
/// nothing.
pub fn on_input<'a>(state: &mut GlobalState, path: &'a str, probe: MediaProbe) -> (res: &'a str)
    requires
        probe == MediaProbe::Playable ==> path_file_name(path@) is Some,
    ensures
        probe == MediaProbe::Unreadable ==> res@ == "File is corrupted!"@ && final(state)@ == old(state)@,
        probe == MediaProbe::Undecodable ==> res@ == "Invalid music file"@ && final(state)@ == old(state)@,
        probe == MediaProbe::Playable ==> {
            &&& res@ == path_file_name(path@).unwrap()
            &&& final(state)@ == input_next(old(state)@, path@, res@)
        },
{
    match probe {
        MediaProbe::Unreadable => {
            return "File is corrupted!";
        },
        MediaProbe::Undecodable => {
            return "Invalid music file";
        },
        MediaProbe::Playable => {},
    }
    let name = file_name(path).unwrap();
    state.song_name = String::from_str(name);
    state.path = String::from_str(path);
    state.is_playable = true;
    state.is_playing = false;
    state.is_coverted = false;
    name
}

/// A file drop for any path: `None`, with the state unchanged, where the file
/// is playable but its path has no final component to name the song by;
/// otherwise as `on_input`.
pub fn try_on_input<'a>(state: &mut GlobalState, path: &'a str, probe: MediaProbe) -> (res: Option<&'a str>)
    ensures
        probe == MediaProbe::Playable && path_file_name(path@) is None ==> {
            &&& res is None
            &&& final(state)@ == old(state)@
        },
        probe == MediaProbe::Unreadable ==> {
            &&& res matches Some(m) && m@ == "File is corrupted!"@
            &&& final(state)@ == old(state)@
        },
        probe == MediaProbe::Undecodable ==> {
            &&& res matches Some(m) && m@ == "Invalid music file"@
            &&& final(state)@ == old(state)@
        },
        probe == MediaProbe::Playable && path_file_name(path@) is Some ==> {
            &&& res matches Some(n) && n@ == path_file_name(path@).unwrap()
            &&& final(state)@ == input_next(old(state)@, path@, path_file_name(path@).unwrap())
        },
{
    if probe == MediaProbe::Playable {
        if file_name(path).is_none() {
            return None;
        }
    }
    Some(on_input(state, path, probe))
}

/// What a toggle request asks of the sink.
#[derive(Clone, Copy, Debug, PartialEq, Eq, Structural)]
pub enum ToggleAction {
    /// Nothing.
    Nothing,
    /// Pause the sink.
    PauseSink,
    /// Start playback in the background (see `play_music`).
    StartPlayback,
}

/// The state after a toggle request: a loaded song flips between playing and
/// not playing; without one nothing changes.
pub open spec fn toggle_next(s: StateView) -> StateView {
    if s.is_playable {
        StateView { is_playing: !s.is_playing, ..s }
    } else {
        s
    }
}

/// Starts or pauses the loaded song, and answers with what it did.
pub fn toggle_play_music(state: &mut GlobalState) -> (res: (String, ToggleAction))
    ensures
        final(state)@ == toggle_next(old(state)@),
        !old(state).is_playable ==> {
            &&& res.0@ == "Nothing to play"@
            &&& res.1 == ToggleAction::Nothing
            &&& final(state)@ == old(state)@
        },
        old(state).is_playable && old(state).is_playing ==> {
            &&& res.0@ == "Stop"@
            &&& res.1 == ToggleAction::PauseSink
            &&& final(state)@ == (StateView { is_playing: false, ..old(state)@ })
        },
        old(state).is_playable && !old(state).is_playing ==> {
            &&& res.0@ == "Playing"@
            &&& res.1 == ToggleAction::StartPlayback
            &&& final(state)@ == (StateView { is_playing: true, ..old(state)@ })
        },
{
    if state.is_playable {
        if state.is_playing {
            state.is_playing = false;
            (String::from_str("Stop"), ToggleAction::PauseSink)
        } else {
            state.is_playing = true;
            (String::from_str("Playing"), ToggleAction::StartPlayback)
        }
    } else {
        (String::from_str("Nothing to play"), ToggleAction::Nothing)
    }
}

/// Clears the loaded song.
pub fn reset_state(state: &mut GlobalState)
    ensures
        final(state)@ == (StateView {
            song_name: Seq::empty(),
            is_playable: false,
            is_coverted: false,
            covert_name: Seq::empty(),
            path: "./"@,
            ..old(state)@
        }),
{
    state.song_name = String::new();
    state.is_playable = false;
    state.is_coverted = false;
    state.covert_name = String::new();
    state.path = String::from_str("./");
}

/// The path of the loaded song.
pub fn get_file_path(state: &GlobalState) -> (res: String)
    ensures
        res@ == state.path@,
{
    state.path.clone()
}

/// What background playback does.
pub enum PlayMusicStep {
    /// Resume the paused sink, and nothing more.
    Resume,
    /// Open and decode the file at this path and append it to the sink; give
    /// up if either fails.
    Load(String),
}

/// Background playback: a paused sink is resumed, otherwise the loaded song is
/// put on the sink.
pub fn play_music(state: &GlobalState, sink_paused: bool) -> (res: PlayMusicStep)
    ensures
        sink_paused ==> res is Resume,
        !sink_paused ==> (res matches PlayMusicStep::Load(p) && p@ == state.path@),
{
    if sink_paused {
        return PlayMusicStep::Resume;
    }
    PlayMusicStep::Load(get_file_path(state))
}

/// Two toggle requests in a row leave the simple player as it was.
pub proof fn lemma_toggle_twice(s: StateView)
    ensures
        toggle_next(toggle_next(s)) == s,
{
}

/// After a playable file is dropped, a toggle request starts playback.
pub proof fn lemma_drop_then_toggle_plays(s: StateView, path: Seq<char>, name: Seq<char>)
    ensures
        toggle_next(input_next(s, path, name)).is_playing,
{
}

/// A toggle request flips a loaded song between playing and not playing, and
/// changes nothing else; without a loaded song it changes nothing.
pub proof fn lemma_toggle_flips_playing(s: StateView)
    ensures
        s.is_playable ==> toggle_next(s).is_playing == !s.is_playing,
        !s.is_playable ==> toggle_next(s) == s,
        toggle_next(s).song_name == s.song_name,
        toggle_next(s).path == s.path,
        toggle_next(s).is_playable == s.is_playable,
        toggle_next(s).is_coverted == s.is_coverted,
        toggle_next(s).covert_name == s.covert_name,
{
}

/// A dropped playable file becomes the loaded song, under its name, stopped
/// and not yet converted; the converted name stays.
pub proof fn lemma_drop_loads_stopped(s: StateView, path: Seq<char>, name: Seq<char>)
    ensures
        input_next(s, path, name).path == path,
        input_next(s, path, name).song_name == name,
        input_next(s, path, name).is_playable,
        !input_next(s, path, name).is_playing,
        !input_next(s, path, name).is_coverted,
        input_next(s, path, name).covert_name == s.covert_name,
{
}

} // verus!
