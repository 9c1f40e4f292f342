//! The errors a playback session can fail with when it is opened.
//!
//! Everything that can go wrong synchronously surfaces here: a missing
//! audio context, a decoder failure, a channel count the backend has no
//! format for, or an error code the backend reports after an operation.
//! Failures inside the running worker are not propagated through this
//! type — they are handled best-effort on the worker's own cycle.

use crate::openal::spec_al_error_message;
use crate::openal::al_error_message;
use vstd::prelude::*;

verus! {

/// Why opening or starting a playback session failed.
#[derive(Debug, PartialEq, Eq)]
pub enum SoundError {
    /// No audio context is active.
    BackendUnavailable,
    /// The decoder could not open or read the file; carries the decoder's
    /// own description of the failure.
    DecodeError(String),
    /// The file's channel count has no backend format mapping.
    UnsupportedFormat,
    /// The backend reported the carried error code after an operation.
    BackendInternalError(i32),
}

/// The text that describes a `SoundError`.
pub open spec fn spec_sound_error_message(e: SoundError) -> Seq<char> {
    match e {
        SoundError::BackendUnavailable => "no active audio context"@,
        SoundError::DecodeError(m) => "error while loading music file: "@ + m@,
        SoundError::UnsupportedFormat => "unrecognized music format"@,
        SoundError::BackendInternalError(code) => "internal OpenAL error: "@
            + spec_al_error_message(code),
    }
}

impl SoundError {
    /// Describe the error in words.
    pub fn message(&self) -> (r: String)
        ensures
            r@ == spec_sound_error_message(*self),
    {
        match self {
            SoundError::BackendUnavailable => String::from_str("no active audio context"),
            SoundError::DecodeError(m) => {
                let mut s = String::from_str("error while loading music file: ");
                s.append(m.as_str());
                s
            },
            SoundError::UnsupportedFormat => String::from_str("unrecognized music format"),
            SoundError::BackendInternalError(code) => {
                let mut s = String::from_str("internal OpenAL error: ");
                let detail = al_error_message(*code);
                s.append(detail.as_str());
                s
            },
        }
    }
}

} // verus!
