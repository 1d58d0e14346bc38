//! The player that the application drives: one shared state, a song file and
//! an optional radio rendition of it, and the commands each user request sends
//! to the audio sink.
//!
//! Every request is a step from the current state, and from what the caller
//! observed of the sink or the disk where the step depends on it, to the next
//! state and the sink commands to run, in order.

use vstd::prelude::*;
use crate::path_name::{file_name, path_file_name};
use crate::music_2_radio::{radio_output_path, radio_output_path_spec};

verus! {

/// What the player is doing.
#[derive(Clone, Copy, Debug, PartialEq, Eq, Structural)]
pub enum PlayerState {
    Play,
    PlayRadio,
    Pause,
    PauseRadio,
    Stop,
    Reset,
    Init,
}

/// A command for the audio sink. `Append` queues the source that the caller
/// decoded from the file it was asked to load.
#[derive(Clone, Copy, Debug, PartialEq, Eq, Structural)]
pub enum SinkCommand {
    Play,
    Pause,
    Stop,
    Append,
}

/// What the caller found when it opened a file and tried to decode it.
#[derive(Clone, Copy, Debug, PartialEq, Eq, Structural)]
pub enum MediaProbe {
    /// The file could not be opened.
    Unreadable,
    /// The file opened but is not audio the decoder accepts.
    Undecodable,
    /// The file opened and decodes.
    Playable,
}

/// The shared state of the player.
pub struct GlobalState {
    pub song_name: String,
    pub playing_name: String,
    pub radio_path: String,
    pub path: String,
    pub is_playable: bool,
    pub is_coverted: bool,
    pub covert_name: String,
    pub state: PlayerState,
}

/// The state with its texts taken as character sequences.
pub struct StateView {
    pub song_name: Seq<char>,
    pub playing_name: Seq<char>,
    pub radio_path: Seq<char>,
    pub path: Seq<char>,
    pub is_playable: bool,
    pub is_coverted: bool,
    pub covert_name: Seq<char>,
    pub state: PlayerState,
}

impl View for GlobalState {
    type V = StateView;

    open spec fn view(&self) -> StateView {
        StateView {
            song_name: self.song_name@,
            playing_name: self.playing_name@,
            radio_path: self.radio_path@,
            path: self.path@,
            is_playable: self.is_playable,
            is_coverted: self.is_coverted,
            covert_name: self.covert_name@,
            state: self.state,
        }
    }
}

impl GlobalState {
    /// The state the player starts in.
    pub fn new() -> (res: GlobalState)
        ensures
            res@ == (StateView {
                song_name: "tmp"@,
                playing_name: "tmp"@,
                radio_path: "tmp"@,
                path: "./"@,
                is_playable: false,
                is_coverted: false,
                covert_name: "tmp_converted"@,
                state: PlayerState::Init,
            }),
    {
        GlobalState {
            song_name: String::from_str("tmp"),
            playing_name: String::from_str("tmp"),
            radio_path: String::from_str("tmp"),
            path: String::from_str("./"),
            is_playable: false,
            is_coverted: false,
            covert_name: String::from_str("tmp_converted"),
            state: PlayerState::Init,
        }
    }

    pub fn set_state(&mut self, state: PlayerState)
        ensures
            final(self)@ == (StateView { state, ..old(self)@ }),
    {
        self.state = state
    }

    pub fn get_state(&self) -> (res: PlayerState)
        ensures
            res == self.state,
    {
        self.state
    }

    /// The path of the loaded song.
    pub fn get_file_path(&self) -> (res: String)
        ensures
            res@ == self.path@,
    {
        self.path.clone()
    }

    pub fn get_song_name(&self) -> (res: String)
        ensures
            res@ == self.song_name@,
    {
        self.song_name.clone()
    }
}

/// The playing state of a mode: the radio rendition or the song itself.
pub open spec fn playing_state(radio: bool) -> PlayerState {
    if radio {
        PlayerState::PlayRadio
    } else {
        PlayerState::Play
    }
}

/// The paused state of a mode.
pub open spec fn paused_state(radio: bool) -> PlayerState {
    if radio {
        PlayerState::PauseRadio
    } else {
        PlayerState::Pause
    }
}

/// The file a play request in the given mode loads.
pub open spec fn load_path(s: StateView, radio: bool) -> Seq<char> {
    if radio {
        s.radio_path
    } else {
        s.path
    }
}

/// The state after the player is set up: no song, the path `./`, and the
/// initial player state; the names last played and rendered stay.
pub open spec fn init_next(s: StateView) -> StateView {
    StateView {
        song_name: Seq::empty(),
        is_playable: false,
        is_coverted: false,
        covert_name: Seq::empty(),
        path: "./"@,
        state: PlayerState::Init,
        ..s
    }
}

/// Clears the loaded song and returns the player to its initial state.
pub fn init_processing(state: &mut GlobalState)
    ensures
        final(state)@ == init_next(old(state)@),
{
    state.song_name = String::new();
    state.is_playable = false;
    state.is_coverted = false;
    state.covert_name = String::new();
    state.path = String::from_str("./");
    state.set_state(PlayerState::Init);
}

/// The state after a reset request: any state but `Init` becomes `Reset`.
pub open spec fn reset_next(st: PlayerState) -> PlayerState {
    match st {
        PlayerState::Init => PlayerState::Init,
        _ => PlayerState::Reset,
    }
}

/// Marks the player as reset, unless it has not started yet.
pub fn reset_state(state: &mut GlobalState)
    ensures
        final(state)@ == (StateView { state: reset_next(old(state).state), ..old(state)@ }),
{
    match state.get_state() {
        PlayerState::Init => (),
        _ => state.set_state(PlayerState::Reset),
    }
}


/// What a file drop gives back.
pub enum InputOutcome {
    /// The file was refused; the text says why.
    Rejected(String),
    /// The file is the song already loaded. Its name is given; the caller then
    /// reports to `on_input_same_path` whether the sink is paused.
    SamePath(String),
    /// The file is now the loaded song. Its name is given.
    Loaded(String),
}

/// The state after a playable file at `path`, named `name`, was dropped: the
/// song already loaded stays as it is, another one replaces it.
pub open spec fn input_next(s: StateView, path: Seq<char>, name: Seq<char>) -> StateView {
    if path == s.path {
        s
    } else {
        StateView { song_name: name, path, is_playable: true, is_coverted: false, ..s }
    }
}

/// What a file drop answers, given the state before and what the caller found
/// at `path`.
pub open spec fn input_answer(s: StateView, path: Seq<char>, probe: MediaProbe, res: InputOutcome) -> bool {
    match probe {
        MediaProbe::Unreadable => res matches InputOutcome::Rejected(m) && m@ == "File is corrupted!"@,
        MediaProbe::Undecodable => res matches InputOutcome::Rejected(m) && m@ == "Invalid music file"@,
        MediaProbe::Playable => {
            let name = path_file_name(path).unwrap();
            if path == s.path {
                res matches InputOutcome::SamePath(n) && n@ == name
            } else {
                res matches InputOutcome::Loaded(n) && n@ == name
            }
        },
    }
}

/// The state after a file drop.
pub open spec fn input_state(s: StateView, path: Seq<char>, probe: MediaProbe) -> StateView {
    match probe {
        MediaProbe::Playable => input_next(s, path, path_file_name(path).unwrap()),
        _ => s,
    }
}

/// Takes a dropped file as the song to play. A file that cannot be opened or
/// decoded is refused with a message and changes nothing; the song already
/// loaded is recognised by its path; any other playable file replaces it.
pub fn on_input(state: &mut GlobalState, path: &str, probe: MediaProbe) -> (res: InputOutcome)
    requires
        probe == MediaProbe::Playable ==> path_file_name(path@) is Some,
    ensures
        input_answer(old(state)@, path@, probe, res),
        final(state)@ == input_state(old(state)@, path@, probe),
{
    match probe {
        MediaProbe::Unreadable => {
            return InputOutcome::Rejected(String::from_str("File is corrupted!"));
        },
        MediaProbe::Undecodable => {
            return InputOutcome::Rejected(String::from_str("Invalid music file"));
        },
        MediaProbe::Playable => {},
    }
    let name = String::from_str(file_name(path).unwrap());
    let dropped = String::from_str(path);
    if dropped == state.get_file_path() {
        return InputOutcome::SamePath(name);
    }
    state.song_name = name.clone();
    state.path = dropped;
    state.is_playable = true;
    state.is_coverted = false;
    InputOutcome::Loaded(name)
}

/// Finishes a drop of the song already loaded: the player shows it paused or
/// playing as the sink is.
pub fn on_input_same_path(state: &mut GlobalState, sink_paused: bool)
    ensures
        final(state)@ == (StateView {
            state: if sink_paused { PlayerState::Pause } else { PlayerState::Play },
            ..old(state)@
        }),
{
    if sink_paused {
        state.set_state(PlayerState::Pause);
    } else {
        state.set_state(PlayerState::Play);
    }
}

/// How a play request goes on after its first step.
pub enum PlayNext {
    /// The request is answered: the player plays, and the request succeeded.
    Done,
    /// The caller must open and decode the file at this path. If that fails
    /// the request fails with the state as it is now; otherwise the caller
    /// reports to `play_loaded` (or `on_play_loaded`) whether the sink is paused.
    Load(String),
}

/// The first step of a play request: sink commands to run now, and how the
/// request goes on.
pub struct PlayStart {
    pub commands: Vec<SinkCommand>,
    pub next: PlayNext,
}

/// Whether a play request in the given mode is answered at once: the sink
/// already holds the rendition asked for, playing or paused.
pub open spec fn play_start_done(st: PlayerState, radio: bool) -> bool {
    st == playing_state(radio) || st == paused_state(radio)
}

/// The sink commands a play request in the given mode runs at once.
pub open spec fn play_start_commands(st: PlayerState, radio: bool) -> Seq<SinkCommand> {
    match st {
        PlayerState::Pause => if radio {
            seq![SinkCommand::Play, SinkCommand::Stop]
        } else {
            seq![SinkCommand::Play]
        },
        PlayerState::PauseRadio => if radio {
            seq![SinkCommand::Play, SinkCommand::Play]
        } else {
            seq![SinkCommand::Play, SinkCommand::Stop]
        },
        PlayerState::PlayRadio => if radio {
            seq![]
        } else {
            seq![SinkCommand::Stop]
        },
        PlayerState::Play => if radio {
            seq![SinkCommand::Stop]
        } else {
            seq![]
        },
        _ => seq![],
    }
}

/// The first step of a play request, in radio mode or not. A paused sink that
/// holds the rendition asked for is resumed; one that plays it is left alone;
/// otherwise the sink is emptied of the other rendition, if it held one, and
/// the file of the rendition asked for must be loaded.
pub fn on_play_iml(state: &mut GlobalState, radio: bool) -> (res: PlayStart)
    ensures
        res.commands@ == play_start_commands(old(state).state, radio),
        play_start_done(old(state).state, radio) ==> {
            &&& res.next is Done
            &&& final(state)@ == (StateView { state: playing_state(radio), ..old(state)@ })
        },
        !play_start_done(old(state).state, radio) ==> {
            &&& res.next matches PlayNext::Load(p) && p@ == load_path(old(state)@, radio)
            &&& final(state)@ == old(state)@
        },
{
    let mut commands: Vec<SinkCommand> = Vec::new();
    match state.get_state() {
        PlayerState::Pause => {
            commands.push(SinkCommand::Play);
            if radio {
                commands.push(SinkCommand::Stop);
            } else {
                state.set_state(PlayerState::Play);
                return PlayStart { commands, next: PlayNext::Done };
            }
        },
        PlayerState::PauseRadio => {
            commands.push(SinkCommand::Play);
            if !radio {
                commands.push(SinkCommand::Stop);
            } else {
                commands.push(SinkCommand::Play);
                state.set_state(PlayerState::PlayRadio);
                return PlayStart { commands, next: PlayNext::Done };
            }
        },
        PlayerState::PlayRadio => {
            if radio {
                return PlayStart { commands, next: PlayNext::Done };
            } else {
                commands.push(SinkCommand::Stop);
            }
        },
        PlayerState::Play => {
            if !radio {
                return PlayStart { commands, next: PlayNext::Done };
            } else {
                commands.push(SinkCommand::Stop);
            }
        },
        _ => {},
    }
    let path = if radio {
        state.radio_path.clone()
    } else {
        state.get_file_path()
    };
    PlayStart { commands, next: PlayNext::Load(path) }
}

/// Plays the loaded song.
pub fn on_play(state: &mut GlobalState) -> (res: PlayStart)
    ensures
        res.commands@ == play_start_commands(old(state).state, false),
        play_start_done(old(state).state, false) ==> {
            &&& res.next is Done
            &&& final(state)@ == (StateView { state: PlayerState::Play, ..old(state)@ })
        },
        !play_start_done(old(state).state, false) ==> {
            &&& res.next matches PlayNext::Load(p) && p@ == old(state).path@
            &&& final(state)@ == old(state)@
        },
{
    on_play_iml(state, false)
}

/// Plays the radio rendition of the loaded song.
pub fn on_play_radio(state: &mut GlobalState) -> (res: PlayStart)
    ensures
        res.commands@ == play_start_commands(old(state).state, true),
        play_start_done(old(state).state, true) ==> {
            &&& res.next is Done
            &&& final(state)@ == (StateView { state: PlayerState::PlayRadio, ..old(state)@ })
        },
        !play_start_done(old(state).state, true) ==> {
            &&& res.next matches PlayNext::Load(p) && p@ == old(state).radio_path@
            &&& final(state)@ == old(state)@
        },
{
    on_play_iml(state, true)
}

/// The sink commands that put a freshly decoded source on the sink: a reset
/// player first empties the sink, resuming it first if it is paused.
pub open spec fn loaded_commands(st: PlayerState, sink_paused: bool) -> Seq<SinkCommand> {
    if st == PlayerState::Reset {
        if sink_paused {
            seq![SinkCommand::Play, SinkCommand::Stop, SinkCommand::Append]
        } else {
            seq![SinkCommand::Stop, SinkCommand::Append]
        }
    } else {
        seq![SinkCommand::Append]
    }
}

/// The state once a source is on the sink: the player plays it, under the name
/// of the file it came from.
pub open spec fn loaded_state(s: StateView, radio: bool) -> StateView {
    StateView {
        playing_name: path_file_name(load_path(s, radio)).unwrap(),
        state: playing_state(radio),
        ..s
    }
}

/// The last step of a play request whose file was opened and decoded: the
/// commands that put the source on the sink, and the player plays it.
pub fn play_loaded(state: &mut GlobalState, radio: bool, sink_paused: bool) -> (res: Vec<SinkCommand>)
    requires
        path_file_name(load_path(old(state)@, radio)) is Some,
    ensures
        res@ == loaded_commands(old(state).state, sink_paused),
        final(state)@ == loaded_state(old(state)@, radio),
{
    let mut commands: Vec<SinkCommand> = Vec::new();
    if state.get_state() == PlayerState::Reset {
        if sink_paused {
            commands.push(SinkCommand::Play);
        }
        commands.push(SinkCommand::Stop);
    }
    commands.push(SinkCommand::Append);
    let path = if radio {
        state.radio_path.clone()
    } else {
        state.get_file_path()
    };
    state.playing_name = String::from_str(file_name(path.as_str()).unwrap());
    if radio {
        state.set_state(PlayerState::PlayRadio);
    } else {
        state.set_state(PlayerState::Play);
    }
    commands
}

/// The last step of a play request whose file was opened and decoded, for any
/// file path: `None`, with the state unchanged, where the path that was loaded
/// has no final component to name the song by; otherwise as `play_loaded`.
pub fn on_play_loaded(state: &mut GlobalState, radio: bool, sink_paused: bool) -> (res: Option<Vec<SinkCommand>>)
    ensures
        path_file_name(load_path(old(state)@, radio)) is None ==> {
            &&& res is None
            &&& final(state)@ == old(state)@
        },
        path_file_name(load_path(old(state)@, radio)) is Some ==> {
            &&& res matches Some(c) && c@ == loaded_commands(old(state).state, sink_paused)
            &&& final(state)@ == loaded_state(old(state)@, radio)
        },
{
    let named = if radio {
        file_name(state.radio_path.as_str())
    } else {
        file_name(state.path.as_str())
    };
    match named {
        Some(_) => Some(play_loaded(state, radio, sink_paused)),
        None => None,
    }
}

/// The state after a pause request: a playing player pauses, in its mode.
pub open spec fn pause_next(st: PlayerState) -> PlayerState {
    match st {
        PlayerState::Play => PlayerState::Pause,
        PlayerState::PlayRadio => PlayerState::PauseRadio,
        _ => st,
    }
}

/// The sink commands of a pause request: a playing player pauses the sink, and
/// a reset one pauses it unless it already is paused.
pub open spec fn pause_commands(st: PlayerState, sink_paused: bool) -> Seq<SinkCommand> {
    match st {
        PlayerState::Reset => if sink_paused {
            seq![]
        } else {
            seq![SinkCommand::Pause]
        },
        PlayerState::Play => seq![SinkCommand::Pause],
        PlayerState::PlayRadio => seq![SinkCommand::Pause],
        _ => seq![],
    }
}

/// Pauses playback. The request always succeeds.
pub fn on_pause(state: &mut GlobalState, sink_paused: bool) -> (res: Vec<SinkCommand>)
    ensures
        res@ == pause_commands(old(state).state, sink_paused),
        final(state)@ == (StateView { state: pause_next(old(state).state), ..old(state)@ }),
{
    let mut commands: Vec<SinkCommand> = Vec::new();
    match state.get_state() {
        PlayerState::Reset => {
            if !sink_paused {
                commands.push(SinkCommand::Pause);
            }
        },
        PlayerState::Play => {
            commands.push(SinkCommand::Pause);
            state.set_state(PlayerState::Pause);
        },
        PlayerState::PlayRadio => {
            commands.push(SinkCommand::Pause);
            state.set_state(PlayerState::PauseRadio);
        },
        _ => {},
    }
    commands
}

/// The sink commands of a stop request: the sink is emptied, after resuming it
/// first when the song is paused.
pub open spec fn stop_commands(st: PlayerState) -> Seq<SinkCommand> {
    if st == PlayerState::Pause {
        seq![SinkCommand::Play, SinkCommand::Stop, SinkCommand::Stop]
    } else {
        seq![SinkCommand::Stop]
    }
}

/// Stops playback. The request always succeeds.
pub fn on_stop(state: &mut GlobalState) -> (res: Vec<SinkCommand>)
    ensures
        res@ == stop_commands(old(state).state),
        final(state)@ == (StateView { state: PlayerState::Stop, ..old(state)@ }),
{
    let mut commands: Vec<SinkCommand> = Vec::new();
    if state.get_state() == PlayerState::Pause {
        commands.push(SinkCommand::Play);
        commands.push(SinkCommand::Stop);
    }
    commands.push(SinkCommand::Stop);
    state.set_state(PlayerState::Stop);
    commands
}

/// A conversion of the loaded song to its radio rendition: the caller renders
/// `source_path` into `output_path`, then hands the job to
/// `complete_radio_conversion`.
pub struct RadioJob {
    pub source_path: String,
    pub song_name: String,
    pub output_path: String,
}

/// Prepares the conversion of the loaded song to its radio rendition.
pub fn convert_2_radio(state: &GlobalState) -> (res: RadioJob)
    ensures
        res.source_path@ == state.path@,
        res.song_name@ == state.song_name@,
        res.output_path@ == radio_output_path_spec(state.song_name@),
{
    let song_name = state.get_song_name();
    let source_path = state.get_file_path();
    let output_path = radio_output_path(song_name.as_str());
    RadioJob { source_path, song_name, output_path }
}

/// Records the rendered radio rendition as the file a radio play request loads.
pub fn complete_radio_conversion(state: &mut GlobalState, job: RadioJob)
    ensures
        final(state)@ == (StateView { radio_path: job.output_path@, ..old(state)@ }),
{
    state.radio_path = job.output_path;
}

/// Pausing a player that plays, then asking it to play in the same mode,
/// resumes the same source: the sink is paused, then only resumed (never
/// stopped or reloaded), and the player plays again.
pub proof fn lemma_pause_then_play_resumes(radio: bool, sink_paused: bool)
    ensures
        pause_next(playing_state(radio)) == paused_state(radio),
        pause_commands(playing_state(radio), sink_paused) == seq![SinkCommand::Pause],
        play_start_done(paused_state(radio), radio),
        play_start_commands(paused_state(radio), radio) == (if radio {
            seq![SinkCommand::Play, SinkCommand::Play]
        } else {
            seq![SinkCommand::Play]
        }),
{
}

/// Asking a player to play what it already plays does nothing: the request is
/// answered at once, with no sink command.
pub proof fn lemma_play_while_playing_is_idle(radio: bool)
    ensures
        play_start_done(playing_state(radio), radio),
        play_start_commands(playing_state(radio), radio) == Seq::<SinkCommand>::empty(),
{
}

/// Switching between the song and its radio rendition, playing or paused,
/// empties the sink before the other file is loaded.
pub proof fn lemma_switch_mode_empties_sink(radio: bool, paused: bool)
    ensures
        ({
            let st = if paused { paused_state(!radio) } else { playing_state(!radio) };
            &&& !play_start_done(st, radio)
            &&& play_start_commands(st, radio).len() > 0
            &&& play_start_commands(st, radio).last() == SinkCommand::Stop
        }),
{
}

/// A stop request always empties the sink and leaves the player stopped; a
/// play request after it, in either mode, loads its file afresh.
pub proof fn lemma_stop_then_play_reloads(st: PlayerState, radio: bool)
    ensures
        stop_commands(st).len() > 0,
        stop_commands(st).last() == SinkCommand::Stop,
        !play_start_done(PlayerState::Stop, radio),
        play_start_commands(PlayerState::Stop, radio) == Seq::<SinkCommand>::empty(),
{
}

/// Resetting twice is resetting once, and after a reset any play request loads
/// its file afresh.
pub proof fn lemma_reset_idempotent(st: PlayerState, radio: bool)
    ensures
        reset_next(reset_next(st)) == reset_next(st),
        !play_start_done(reset_next(st), radio),
{
}

/// Pausing twice is pausing once; the second request sends no command to the
/// sink, unless the player is reset (then the sink is paused if it plays).
pub proof fn lemma_pause_idempotent(st: PlayerState, sink_paused: bool)
    ensures
        pause_next(pause_next(st)) == pause_next(st),
        st != PlayerState::Reset ==> pause_commands(pause_next(st), sink_paused)
            == Seq::<SinkCommand>::empty(),
{
}

/// Setting the player up twice is setting it up once.
pub proof fn lemma_init_idempotent(s: StateView)
    ensures
        init_next(init_next(s)) == init_next(s),
{
}

/// Once a loaded source is on the sink, the last command queued it, the player
/// plays it under the name of its file, the loaded song is still the same, and
/// asking to play it again does nothing.
pub proof fn lemma_loaded_source_plays(s: StateView, radio: bool, sink_paused: bool)
    ensures
        loaded_state(s, radio).path == s.path,
        loaded_state(s, radio).song_name == s.song_name,
        loaded_state(s, radio).radio_path == s.radio_path,
        loaded_commands(s.state, sink_paused).last() == SinkCommand::Append,
        loaded_state(s, radio).state == playing_state(radio),
        play_start_done(loaded_state(s, radio).state, radio),
        play_start_commands(loaded_state(s, radio).state, radio) == Seq::<SinkCommand>::empty(),
{
}

/// Dropping the same playable file a second time changes nothing, and the
/// second drop is recognised as the song already loaded.
pub proof fn lemma_drop_same_file_twice(s: StateView, path: Seq<char>)
    requires
        path_file_name(path) is Some,
    ensures
        input_state(input_state(s, path, MediaProbe::Playable), path, MediaProbe::Playable)
            == input_state(s, path, MediaProbe::Playable),
        input_state(s, path, MediaProbe::Playable).path == path,
{
}

/// A refused file changes nothing.
pub proof fn lemma_refused_file_changes_nothing(s: StateView, path: Seq<char>, probe: MediaProbe)
    requires
        probe != MediaProbe::Playable,
    ensures
        input_state(s, path, probe) == s,
{
}

/// The first step of a play request never pauses the sink and never queues a
/// source; a player that neither plays nor holds a paused source (set up,
/// stopped, or reset) sends no command at all and loads the file asked for.
pub proof fn lemma_play_start_sink_commands(st: PlayerState, radio: bool)
    ensures
        !play_start_commands(st, radio).contains(SinkCommand::Pause),
        !play_start_commands(st, radio).contains(SinkCommand::Append),
        (st == PlayerState::Init || st == PlayerState::Stop || st == PlayerState::Reset) ==> {
            &&& play_start_commands(st, radio) == Seq::<SinkCommand>::empty()
            &&& !play_start_done(st, radio)
        },
{
    let c = play_start_commands(st, radio);
    assert(!c.contains(SinkCommand::Pause)) by {
        if c.contains(SinkCommand::Pause) {
            let i = choose|i: int| 0 <= i < c.len() && c[i] == SinkCommand::Pause;
        }
    }
    assert(!c.contains(SinkCommand::Append)) by {
        if c.contains(SinkCommand::Append) {
            let i = choose|i: int| 0 <= i < c.len() && c[i] == SinkCommand::Append;
        }
    }
}

/// Which play requests are answered at once, state by state: exactly those
/// for the rendition the sink already holds, playing or paused. A paused one is
/// resumed first (its first command is `Play`); every other request loads its
/// file.
pub proof fn lemma_play_start_answers(st: PlayerState, radio: bool)
    ensures
        play_start_done(st, radio) <==> (
            (!radio && (st == PlayerState::Play || st == PlayerState::Pause))
            || (radio && (st == PlayerState::PlayRadio || st == PlayerState::PauseRadio))
        ),
        (st == PlayerState::Pause || st == PlayerState::PauseRadio) ==> {
            &&& play_start_commands(st, radio).len() > 0
            &&& play_start_commands(st, radio)[0] == SinkCommand::Play
        },
        (st == PlayerState::Play && !radio) || (st == PlayerState::PlayRadio && radio)
            ==> play_start_commands(st, radio) == Seq::<SinkCommand>::empty(),
        (st == PlayerState::Play && radio) || (st == PlayerState::PlayRadio && !radio)
            ==> play_start_commands(st, radio) == seq![SinkCommand::Stop],
{
}

/// Putting a loaded source on the sink: the source is queued last, the sink is
/// never paused, and only a reset player empties the sink first (resuming it
/// first when it is paused); any other player just queues the source.
pub proof fn lemma_loaded_commands_by_state(st: PlayerState, sink_paused: bool)
    ensures
        st != PlayerState::Reset ==> loaded_commands(st, sink_paused) == seq![SinkCommand::Append],
        st == PlayerState::Reset && sink_paused ==> loaded_commands(st, sink_paused)
            == seq![SinkCommand::Play, SinkCommand::Stop, SinkCommand::Append],
        st == PlayerState::Reset && !sink_paused ==> loaded_commands(st, sink_paused)
            == seq![SinkCommand::Stop, SinkCommand::Append],
{
}

/// After a source is put on the sink the player plays the rendition asked for,
/// named after the file loaded: the song's file for a song request, the
/// rendition's file for a radio request; nothing else in the state changes.
pub proof fn lemma_loaded_state_fields(s: StateView, radio: bool)
    ensures
        !radio ==> loaded_state(s, radio).state == PlayerState::Play,
        radio ==> loaded_state(s, radio).state == PlayerState::PlayRadio,
        !radio ==> loaded_state(s, radio).playing_name == path_file_name(s.path).unwrap(),
        radio ==> loaded_state(s, radio).playing_name == path_file_name(s.radio_path).unwrap(),
        loaded_state(s, radio).song_name == s.song_name,
        loaded_state(s, radio).path == s.path,
        loaded_state(s, radio).radio_path == s.radio_path,
        loaded_state(s, radio).is_playable == s.is_playable,
        loaded_state(s, radio).is_coverted == s.is_coverted,
        loaded_state(s, radio).covert_name == s.covert_name,
{
}

/// A pause request changes the state only of a playing player: playing the
/// song becomes paused on the song, playing the rendition becomes paused on the
/// rendition, and every other state stays as it is.
pub proof fn lemma_pause_only_pauses_playing(st: PlayerState)
    ensures
        st == PlayerState::Play ==> pause_next(st) == PlayerState::Pause,
        st == PlayerState::PlayRadio ==> pause_next(st) == PlayerState::PauseRadio,
        st != PlayerState::Play && st != PlayerState::PlayRadio ==> pause_next(st) == st,
{
}

/// A pause request sends at most one command to the sink, and that command
/// pauses it: a playing player always pauses it, a reset one pauses a sink that
/// still plays, and any other player sends nothing.
pub proof fn lemma_pause_commands_by_state(st: PlayerState, sink_paused: bool)
    ensures
        st == PlayerState::Play || st == PlayerState::PlayRadio
            ==> pause_commands(st, sink_paused) == seq![SinkCommand::Pause],
        st == PlayerState::Reset && !sink_paused ==> pause_commands(st, sink_paused) == seq![SinkCommand::Pause],
        st == PlayerState::Reset && sink_paused ==> pause_commands(st, sink_paused) == Seq::<SinkCommand>::empty(),
        st != PlayerState::Play && st != PlayerState::PlayRadio && st != PlayerState::Reset
            ==> pause_commands(st, sink_paused) == Seq::<SinkCommand>::empty(),
{
}

/// A stop request never pauses the sink and never queues a source: it empties
/// the sink, after resuming it when the song is paused.
pub proof fn lemma_stop_commands_by_state(st: PlayerState)
    ensures
        !stop_commands(st).contains(SinkCommand::Pause),
        !stop_commands(st).contains(SinkCommand::Append),
        st == PlayerState::Pause ==> stop_commands(st)
            == seq![SinkCommand::Play, SinkCommand::Stop, SinkCommand::Stop],
        st != PlayerState::Pause ==> stop_commands(st) == seq![SinkCommand::Stop],
{
    let c = stop_commands(st);
    assert(!c.contains(SinkCommand::Pause)) by {
        if c.contains(SinkCommand::Pause) {
            let i = choose|i: int| 0 <= i < c.len() && c[i] == SinkCommand::Pause;
        }
    }
    assert(!c.contains(SinkCommand::Append)) by {
        if c.contains(SinkCommand::Append) {
            let i = choose|i: int| 0 <= i < c.len() && c[i] == SinkCommand::Append;
        }
    }
}

/// A reset leaves a player that has not started as it is and marks every other
/// one as reset.
pub proof fn lemma_reset_by_state(st: PlayerState)
    ensures
        st == PlayerState::Init ==> reset_next(st) == PlayerState::Init,
        st != PlayerState::Init ==> reset_next(st) == PlayerState::Reset,
{
}

/// A file drop never changes what the player is doing, what it last played,
/// its radio rendition or its converted name; a playable file that is not the
/// loaded song becomes the song, under its file name, not yet converted.
pub proof fn lemma_drop_keeps_player_state(s: StateView, path: Seq<char>, probe: MediaProbe)
    ensures
        input_state(s, path, probe).state == s.state,
        input_state(s, path, probe).playing_name == s.playing_name,
        input_state(s, path, probe).radio_path == s.radio_path,
        input_state(s, path, probe).covert_name == s.covert_name,
        probe == MediaProbe::Playable && path != s.path ==> {
            &&& input_state(s, path, probe).path == path
            &&& input_state(s, path, probe).song_name == path_file_name(path).unwrap()
            &&& input_state(s, path, probe).is_playable
            &&& !input_state(s, path, probe).is_coverted
        },
        probe == MediaProbe::Playable && path == s.path ==> input_state(s, path, probe) == s,
{
}

/// Dropping a file on the window leaves a started player reset, whatever the
/// file, so that the next play request empties the sink before loading.
pub proof fn lemma_drop_leaves_player_reset(s: StateView, path: Seq<char>, probe: MediaProbe)
    requires
        s.state != PlayerState::Init,
    ensures
        input_state(StateView { state: reset_next(s.state), ..s }, path, probe).state == PlayerState::Reset,
        !play_start_done(input_state(StateView { state: reset_next(s.state), ..s }, path, probe).state, false),
{
}

/// Setting the player up clears the song and returns to the initial state,
/// keeping what it last played and its radio rendition.
pub proof fn lemma_init_fields(s: StateView)
    ensures
        init_next(s).state == PlayerState::Init,
        init_next(s).song_name == Seq::<char>::empty(),
        init_next(s).covert_name == Seq::<char>::empty(),
        init_next(s).path == "./"@,
        !init_next(s).is_playable,
        !init_next(s).is_coverted,
        init_next(s).playing_name == s.playing_name,
        init_next(s).radio_path == s.radio_path,
{
}

} // verus!
