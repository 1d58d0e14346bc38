# music_player

The decision logic of a small desktop music player, verified with Verus.

- `src/` is the library. `music_control` is the player the application
  drives: each request (drop a file, play, play the radio rendition, pause,
  stop, convert) is a step from the player's state, and from what the caller
  observed of the sink or the disk, to the next state and the exact sink
  commands to run. `music_processing` is the simpler toggle player.
  `music_2_radio` holds the integer side of the radio conversion: MP3 decoding
  through `minimp3`, the channel split and the output path. `mp3` and
  `path_name` hold the trusted wrappers around `minimp3` and
  `std::path::Path::file_name`.
- `app/` runs the requests against the audio device (`rodio`), reads files,
  and does the floating-point filtering, resampling (`wav_io`) and WAV writing
  (`hound`) of the radio conversion. Requests arrive one per line on standard
  input. The desktop window framework is not part of this build: it needs a
  build script, its configuration file and system web-view libraries, none of
  which this crate's layout admits.
