//! Transport states and the backend's transitions between them.
//!
//! The engine keeps no transport state of its own: play, pause and stop
//! are decided by the backend, and the session only mirrors what the
//! backend's source-state query reports. This module fixes that state
//! set, the decoding of the backend's state codes, and the transitions
//! the backend interface promises for its pause and stop calls.

use crate::openal::AL_INITIAL;
use crate::openal::AL_PAUSED;
use crate::openal::AL_PLAYING;
use crate::openal::AL_STOPPED;
use vstd::prelude::*;

verus! {

/// The transport state of a playback session, as the backend reports it.
#[derive(Clone, Copy, Debug, PartialEq, Eq, Structural)]
pub enum TransportState {
    Initial,
    Playing,
    Paused,
    Stopped,
}

/// Whether a backend state code is one of the four the interface defines.
pub open spec fn spec_valid_state_code(code: i32) -> bool {
    code == AL_INITIAL || code == AL_PLAYING || code == AL_PAUSED || code == AL_STOPPED
}

/// The transport state a backend state code stands for.
pub open spec fn spec_state_of_code(code: i32) -> TransportState
    recommends
        spec_valid_state_code(code),
{
    if code == AL_PLAYING {
        TransportState::Playing
    } else if code == AL_PAUSED {
        TransportState::Paused
    } else if code == AL_STOPPED {
        TransportState::Stopped
    } else {
        TransportState::Initial
    }
}

/// Decode the backend's source-state query result.
pub fn state_of_code(code: i32) -> (r: TransportState)
    requires
        spec_valid_state_code(code),
    ensures
        r == spec_state_of_code(code),
{
    if code == AL_PLAYING {
        TransportState::Playing
    } else if code == AL_PAUSED {
        TransportState::Paused
    } else if code == AL_STOPPED {
        TransportState::Stopped
    } else {
        TransportState::Initial
    }
}

/// The state a source is in after the backend's pause call: a playing or
/// paused source is paused, any other source is left as it is.
pub open spec fn spec_after_pause(s: TransportState) -> TransportState {
    match s {
        TransportState::Playing => TransportState::Paused,
        TransportState::Paused => TransportState::Paused,
        _ => s,
    }
}

/// The state a source is in after the backend's stop call: a source that
/// has left the initial state is stopped, an initial source stays initial.
pub open spec fn spec_after_stop(s: TransportState) -> TransportState {
    match s {
        TransportState::Initial => TransportState::Initial,
        _ => TransportState::Stopped,
    }
}

/// The state a source is in after the backend's play call: it plays,
/// whatever it did before.
pub open spec fn spec_after_play(s: TransportState) -> TransportState {
    TransportState::Playing
}

/// The backend transition performed by a pause call.
pub fn after_pause(s: TransportState) -> (r: TransportState)
    ensures
        r == spec_after_pause(s),
{
    match s {
        TransportState::Playing => TransportState::Paused,
        TransportState::Paused => TransportState::Paused,
        _ => s,
    }
}

/// The backend transition performed by a stop call.
pub fn after_stop(s: TransportState) -> (r: TransportState)
    ensures
        r == spec_after_stop(s),
{
    match s {
        TransportState::Initial => TransportState::Initial,
        _ => TransportState::Stopped,
    }
}

/// The backend transition performed by a play call.
pub fn after_play(s: TransportState) -> (r: TransportState)
    ensures
        r == spec_after_play(s),
{
    TransportState::Playing
}

/// Pausing is idempotent: a second pause call leaves the state where the
/// first one put it — pausing twice in a row leaves a playing source in
/// `Paused`.
pub proof fn lemma_pause_idempotent(s: TransportState)
    ensures
        spec_after_pause(spec_after_pause(s)) == spec_after_pause(s),
{
}

/// Stopping is idempotent: stopping an already stopped source is a no-op,
/// and never an error.
pub proof fn lemma_stop_idempotent(s: TransportState)
    ensures
        spec_after_stop(spec_after_stop(s)) == spec_after_stop(s),
{
}

} // verus!
