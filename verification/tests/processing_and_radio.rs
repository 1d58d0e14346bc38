use music_player::music_2_radio::{decode_song, deinterleave, radio_output_path, DecodedAudio, TARGET_SAMPLE_RATE};
use music_player::music_control::MediaProbe;
use music_player::music_processing::{
    get_file_path, init_processing, on_input, play_music, reset_state, toggle_play_music,
    try_on_input, GlobalState, PlayMusicStep, ToggleAction,
};

#[test]
fn simple_player_starts_empty() {
    init_processing();
    let state = GlobalState::new();
    assert_eq!(state.song_name, "tmp");
    assert_eq!(get_file_path(&state), "./");
    assert!(!state.is_playing && !state.is_playable && !state.is_coverted);
    assert_eq!(state.covert_name, "tmp_converted");
}

#[test]
fn simple_player_refuses_bad_files() {
    let mut state = GlobalState::new();
    assert_eq!(on_input(&mut state, "/x/a.mp3", MediaProbe::Unreadable), "File is corrupted!");
    assert_eq!(on_input(&mut state, "/x/a.mp3", MediaProbe::Undecodable), "Invalid music file");
    assert_eq!(state.song_name, "tmp");
}

#[test]
fn simple_player_toggles() {
    let mut state = GlobalState::new();
    let (message, action) = toggle_play_music(&mut state);
    assert_eq!(message, "Nothing to play");
    assert_eq!(action, ToggleAction::Nothing);

    assert_eq!(try_on_input(&mut state, "/x/a.mp3", MediaProbe::Playable).unwrap(), "a.mp3");
    assert_eq!(get_file_path(&state), "/x/a.mp3");
    let (message, action) = toggle_play_music(&mut state);
    assert_eq!(message, "Playing");
    assert_eq!(action, ToggleAction::StartPlayback);
    assert!(state.is_playing);
    let (message, action) = toggle_play_music(&mut state);
    assert_eq!(message, "Stop");
    assert_eq!(action, ToggleAction::PauseSink);
    assert!(!state.is_playing);
}

#[test]
fn simple_player_drop_without_name_changes_nothing() {
    let mut state = GlobalState::new();
    assert!(try_on_input(&mut state, "..", MediaProbe::Playable).is_none());
    assert_eq!(get_file_path(&state), "./");
}

#[test]
fn simple_player_reset_and_background_play() {
    let mut state = GlobalState::new();
    on_input(&mut state, "b.mp3", MediaProbe::Playable);
    match play_music(&state, false) {
        PlayMusicStep::Load(path) => assert_eq!(path, "b.mp3"),
        PlayMusicStep::Resume => panic!("a running sink loads the song"),
    }
    assert!(matches!(play_music(&state, true), PlayMusicStep::Resume));
    reset_state(&mut state);
    assert_eq!(state.song_name, "");
    assert_eq!(get_file_path(&state), "./");
    assert!(!state.is_playable);
}

#[test]
fn radio_path_and_rate() {
    assert_eq!(radio_output_path("song"), "../radio_out/radio_song.wav");
    assert_eq!(TARGET_SAMPLE_RATE, 8096);
}

#[test]
fn frames_accumulate() {
    let mut audio = DecodedAudio::new();
    assert_eq!(audio.channels, 2);
    assert_eq!(audio.sample_rate, 0);
    audio.add_frame(vec![1, 2], 44100, 2);
    audio.add_frame(vec![3], 22050, 1);
    assert_eq!(audio.samples, vec![1, 2, 3]);
    assert_eq!(audio.channels, 1);
    assert_eq!(audio.sample_rate, 22050);
}

#[test]
fn channels_split_and_interleave_back() {
    let samples: Vec<i16> = vec![10, -1, 20, -2, 30];
    let (left, right) = deinterleave(&samples);
    assert_eq!(left, vec![10, 20, 30]);
    assert_eq!(right, vec![-1, -2]);
    let mut back = Vec::new();
    for i in 0..samples.len() {
        if i % 2 == 0 {
            back.push(left[i / 2]);
        } else {
            back.push(right[i / 2]);
        }
    }
    assert_eq!(back, samples);
    let (left, right) = deinterleave(&[]);
    assert!(left.is_empty() && right.is_empty());
}

fn silent_mono_mp3(frames: usize) -> Vec<u8> {
    // MPEG-1 Layer III, 128 kbit/s, 44100 Hz, mono, no CRC: 417 bytes a frame.
    let mut bytes = Vec::new();
    for _ in 0..frames {
        bytes.extend_from_slice(&[0xFF, 0xFB, 0x90, 0xC4]);
        bytes.extend(std::iter::repeat(0u8).take(413));
    }
    bytes
}

#[test]
fn decoding_nothing_gives_no_samples() {
    let audio = decode_song(Vec::new()).unwrap();
    assert!(audio.samples.is_empty());
    assert_eq!(audio.channels, 2);
    assert_eq!(audio.sample_rate, 0);
}

#[test]
fn decoding_frames_gives_their_samples() {
    let audio = decode_song(silent_mono_mp3(20)).unwrap();
    assert_eq!(audio.channels, 1);
    assert_eq!(audio.sample_rate, 44100);
    assert!(!audio.samples.is_empty());
    assert_eq!(audio.samples.len() % 1152, 0);
    assert!(audio.samples.iter().all(|&s| s == 0));
}
