use music_player::api::{greet, init_processing, on_drop};
use music_player::music_control::{
    complete_radio_conversion, convert_2_radio, on_input, on_input_same_path, on_pause,
    on_play, on_play_iml, on_play_loaded, on_play_radio, on_stop, play_loaded, reset_state,
    GlobalState, InputOutcome, MediaProbe, PlayNext, PlayerState, SinkCommand,
};

fn loaded(path: &str) -> GlobalState {
    let mut state = GlobalState::new();
    init_processing(&mut state);
    match on_drop(&mut state, path, MediaProbe::Playable) {
        Some(InputOutcome::Loaded(_)) => {}
        _ => panic!("the song should load"),
    }
    state
}

fn playing(path: &str) -> GlobalState {
    let mut state = loaded(path);
    let start = on_play(&mut state);
    assert!(matches!(start.next, PlayNext::Load(_)));
    let commands = play_loaded(&mut state, false, false);
    assert_eq!(commands, vec![SinkCommand::Append]);
    state
}

#[test]
fn greet_says_hello() {
    assert_eq!(greet("Ann"), "Hello, Ann!");
    assert_eq!(greet(""), "Hello, !");
}

#[test]
fn new_state_is_initial() {
    let state = GlobalState::new();
    assert_eq!(state.song_name, "tmp");
    assert_eq!(state.playing_name, "tmp");
    assert_eq!(state.radio_path, "tmp");
    assert_eq!(state.path, "./");
    assert_eq!(state.covert_name, "tmp_converted");
    assert!(!state.is_playable && !state.is_coverted);
    assert_eq!(state.get_state(), PlayerState::Init);
}

#[test]
fn init_processing_clears_song() {
    let mut state = GlobalState::new();
    init_processing(&mut state);
    assert_eq!(state.song_name, "");
    assert_eq!(state.covert_name, "");
    assert_eq!(state.path, "./");
    assert_eq!(state.playing_name, "tmp");
    assert_eq!(state.get_state(), PlayerState::Init);
    init_processing(&mut state);
    assert_eq!(state.song_name, "");
    assert_eq!(state.get_state(), PlayerState::Init);
}

#[test]
fn drop_rejects_unreadable_file() {
    let mut state = GlobalState::new();
    match on_input(&mut state, "/nowhere/song.mp3", MediaProbe::Unreadable) {
        InputOutcome::Rejected(message) => assert_eq!(message, "File is corrupted!"),
        _ => panic!("an unreadable file is refused"),
    }
    assert_eq!(state.path, "./");
}

#[test]
fn drop_rejects_undecodable_file() {
    let mut state = GlobalState::new();
    match on_input(&mut state, "/music/notes.txt", MediaProbe::Undecodable) {
        InputOutcome::Rejected(message) => assert_eq!(message, "Invalid music file"),
        _ => panic!("an undecodable file is refused"),
    }
    assert_eq!(state.song_name, "tmp");
}

#[test]
fn drop_loads_song_by_file_name() {
    let state = loaded("/music/album/song.mp3");
    assert_eq!(state.song_name, "song.mp3");
    assert_eq!(state.get_song_name(), "song.mp3");
    assert_eq!(state.get_file_path(), "/music/album/song.mp3");
    assert!(state.is_playable);
    assert!(!state.is_coverted);
}

#[test]
fn drop_of_path_without_name_is_refused_unchanged() {
    let mut state = GlobalState::new();
    assert!(on_drop(&mut state, "/music/..", MediaProbe::Playable).is_none());
    assert_eq!(state.path, "./");
    assert_eq!(state.get_state(), PlayerState::Init);
}

#[test]
fn drop_same_file_twice_is_recognised() {
    let mut state = playing("/music/song.mp3");
    match on_drop(&mut state, "/music/song.mp3", MediaProbe::Playable) {
        Some(InputOutcome::SamePath(name)) => assert_eq!(name, "song.mp3"),
        _ => panic!("the same file is recognised"),
    }
    assert_eq!(state.get_state(), PlayerState::Reset);
    on_input_same_path(&mut state, true);
    assert_eq!(state.get_state(), PlayerState::Pause);
    on_input_same_path(&mut state, false);
    assert_eq!(state.get_state(), PlayerState::Play);
}

#[test]
fn reset_keeps_init_and_marks_others() {
    let mut state = GlobalState::new();
    reset_state(&mut state);
    assert_eq!(state.get_state(), PlayerState::Init);
    state.set_state(PlayerState::Pause);
    reset_state(&mut state);
    assert_eq!(state.get_state(), PlayerState::Reset);
    reset_state(&mut state);
    assert_eq!(state.get_state(), PlayerState::Reset);
}

#[test]
fn play_loads_then_plays_under_file_name() {
    let state = playing("/music/song.mp3");
    assert_eq!(state.get_state(), PlayerState::Play);
    assert_eq!(state.playing_name, "song.mp3");
}

#[test]
fn play_after_reset_empties_sink_first() {
    let mut state = loaded("/music/song.mp3");
    state.set_state(PlayerState::Reset);
    let start = on_play(&mut state);
    assert!(start.commands.is_empty());
    match start.next {
        PlayNext::Load(path) => assert_eq!(path, "/music/song.mp3"),
        PlayNext::Done => panic!("a reset player loads the file"),
    }
    let commands = on_play_loaded(&mut state, false, true).unwrap();
    assert_eq!(commands, vec![SinkCommand::Play, SinkCommand::Stop, SinkCommand::Append]);
    state.set_state(PlayerState::Reset);
    let commands = on_play_loaded(&mut state, false, false).unwrap();
    assert_eq!(commands, vec![SinkCommand::Stop, SinkCommand::Append]);
}

#[test]
fn play_loaded_without_file_name_changes_nothing() {
    let mut state = GlobalState::new();
    state.radio_path = String::from("/");
    assert!(on_play_loaded(&mut state, true, false).is_none());
    assert_eq!(state.get_state(), PlayerState::Init);
    assert_eq!(state.playing_name, "tmp");
}

#[test]
fn pause_then_play_resumes() {
    let mut state = playing("/music/song.mp3");
    assert_eq!(on_pause(&mut state, false), vec![SinkCommand::Pause]);
    assert_eq!(state.get_state(), PlayerState::Pause);
    let start = on_play(&mut state);
    assert_eq!(start.commands, vec![SinkCommand::Play]);
    assert!(matches!(start.next, PlayNext::Done));
    assert_eq!(state.get_state(), PlayerState::Play);
}

#[test]
fn play_while_playing_is_idle() {
    let mut state = playing("/music/song.mp3");
    let start = on_play(&mut state);
    assert!(start.commands.is_empty());
    assert!(matches!(start.next, PlayNext::Done));
    assert_eq!(state.get_state(), PlayerState::Play);
}

#[test]
fn pause_twice_sends_one_command() {
    let mut state = playing("/music/song.mp3");
    assert_eq!(on_pause(&mut state, false), vec![SinkCommand::Pause]);
    assert_eq!(on_pause(&mut state, true), Vec::<SinkCommand>::new());
    assert_eq!(state.get_state(), PlayerState::Pause);
}

#[test]
fn pause_when_reset_pauses_playing_sink_only() {
    let mut state = GlobalState::new();
    state.set_state(PlayerState::Reset);
    assert_eq!(on_pause(&mut state, false), vec![SinkCommand::Pause]);
    assert_eq!(on_pause(&mut state, true), Vec::<SinkCommand>::new());
    assert_eq!(state.get_state(), PlayerState::Reset);
}

#[test]
fn stop_resumes_paused_sink_before_stopping() {
    let mut state = playing("/music/song.mp3");
    on_pause(&mut state, false);
    assert_eq!(
        on_stop(&mut state),
        vec![SinkCommand::Play, SinkCommand::Stop, SinkCommand::Stop]
    );
    assert_eq!(state.get_state(), PlayerState::Stop);
    assert_eq!(on_stop(&mut state), vec![SinkCommand::Stop]);
    let start = on_play(&mut state);
    assert!(matches!(start.next, PlayNext::Load(_)));
}

#[test]
fn radio_conversion_and_switching_modes() {
    let mut state = playing("/music/song.mp3");
    let job = convert_2_radio(&state);
    assert_eq!(job.source_path, "/music/song.mp3");
    assert_eq!(job.song_name, "song.mp3");
    assert_eq!(job.output_path, "../radio_out/radio_song.mp3.wav");
    complete_radio_conversion(&mut state, job);
    assert_eq!(state.radio_path, "../radio_out/radio_song.mp3.wav");

    let start = on_play_radio(&mut state);
    assert_eq!(start.commands, vec![SinkCommand::Stop]);
    match start.next {
        PlayNext::Load(path) => assert_eq!(path, "../radio_out/radio_song.mp3.wav"),
        PlayNext::Done => panic!("switching to radio loads the rendition"),
    }
    let commands = on_play_loaded(&mut state, true, false).unwrap();
    assert_eq!(commands, vec![SinkCommand::Append]);
    assert_eq!(state.get_state(), PlayerState::PlayRadio);
    assert_eq!(state.playing_name, "radio_song.mp3.wav");

    assert_eq!(on_pause(&mut state, false), vec![SinkCommand::Pause]);
    assert_eq!(state.get_state(), PlayerState::PauseRadio);
    let start = on_play_iml(&mut state, true);
    assert_eq!(start.commands, vec![SinkCommand::Play, SinkCommand::Play]);
    assert!(matches!(start.next, PlayNext::Done));
    assert_eq!(state.get_state(), PlayerState::PlayRadio);

    on_pause(&mut state, false);
    let start = on_play(&mut state);
    assert_eq!(start.commands, vec![SinkCommand::Play, SinkCommand::Stop]);
    match start.next {
        PlayNext::Load(path) => assert_eq!(path, "/music/song.mp3"),
        PlayNext::Done => panic!("switching back loads the song"),
    }
    assert_eq!(state.get_state(), PlayerState::PauseRadio);
}

#[test]
fn song_from_paused_to_radio_stops_the_song() {
    let mut state = playing("/music/song.mp3");
    on_pause(&mut state, false);
    let start = on_play_radio(&mut state);
    assert_eq!(start.commands, vec![SinkCommand::Play, SinkCommand::Stop]);
    assert!(matches!(start.next, PlayNext::Load(_)));
    assert_eq!(state.get_state(), PlayerState::Pause);
}
