[package]
name = "music_player"
version = "0.1.0"
edition = "2021"
publish = false

[dependencies]
hound = "3.5"
lazy_static = "1.4"
minimp3 = "0.5"
rodio = "0.17"
wav_io = "*"
