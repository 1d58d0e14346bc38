//! The requests the user interface sends that the library answers itself.

use vstd::prelude::*;
use crate::music_control::{
    self, init_next, input_answer, input_state, reset_next, GlobalState, InputOutcome, MediaProbe, StateView,
};
use crate::path_name::{file_name, path_file_name};

verus! {

/// The greeting for a name: `Hello, <name>!`.
pub fn greet(name: &str) -> (res: String)
    ensures
        res@ == "Hello, "@ + name@ + "!"@,
{
    let mut greeting = String::from_str("Hello, ");
    greeting.append(name);
    greeting.append("!");
    greeting
}

/// A file dropped on the window: the player is marked as reset, then takes the
/// file as its song (see `music_control::on_input`). `None`, with the state
/// unchanged, where the file is playable but its path has no final component to
/// name the song by.
pub fn on_drop(state: &mut GlobalState, path: &str, probe: MediaProbe) -> (res: Option<InputOutcome>)
    ensures
        probe == MediaProbe::Playable && path_file_name(path@) is None ==> {
            &&& res is None
            &&& final(state)@ == old(state)@
        },
        !(probe == MediaProbe::Playable && path_file_name(path@) is None) ==> {
            let reset = StateView { state: reset_next(old(state).state), ..old(state)@ };
            &&& res matches Some(outcome) && input_answer(reset, path@, probe, outcome)
            &&& final(state)@ == input_state(reset, path@, probe)
        },
{
    if probe == MediaProbe::Playable {
        if file_name(path).is_none() {
            return None;
        }
    }
    music_control::reset_state(state);
    Some(music_control::on_input(state, path, probe))
}

/// Sets the player up before the first request.
pub fn init_processing(state: &mut GlobalState)
    ensures
        final(state)@ == init_next(old(state)@),
{
    music_control::init_processing(state)
}

} // verus!
