//! The decision logic of a small desktop music player: which song is loaded,
//! what the player is doing, and which commands go to the audio sink when the
//! user drops a file, plays, pauses, stops, or converts a song to a
//! band-limited "radio" rendition.

pub mod path_name;
pub mod mp3;
pub mod music_2_radio;
pub mod music_control;
pub mod music_processing;
pub mod api;
