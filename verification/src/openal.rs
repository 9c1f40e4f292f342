//! Constants and pure lookups of the audio backend's interface.
//!
//! The backend itself (device and context handling, source and buffer
//! objects) is an external collaborator driven by the host program; this
//! module fixes the values its interface speaks of — format tokens, source
//! states, error codes — and the verified lookups on them.

use vstd::prelude::*;

verus! {

/// Opaque marker for a backend output device handle.
pub struct ALCdevice;

/// Opaque marker for a backend context handle.
pub struct ALCcontext;

/// Backend format token: 16-bit mono.
pub const AL_FORMAT_MONO16: i32 = 0x1101;
/// Backend format token: 16-bit stereo.
pub const AL_FORMAT_STEREO16: i32 = 0x1103;
/// Backend format token: 16-bit quadraphonic.
pub const AL_FORMAT_QUAD16: i32 = 0x1205;
/// Backend format token: 16-bit 5.1 surround.
pub const AL_FORMAT_51CHN16: i32 = 0x120B;
/// Backend format token: 16-bit 6.1 surround.
pub const AL_FORMAT_61CHN16: i32 = 0x120E;
/// Backend format token: 16-bit 7.1 surround.
pub const AL_FORMAT_71CHN16: i32 = 0x1211;

/// Backend source state code: initial.
pub const AL_INITIAL: i32 = 0x1011;
/// Backend source state code: playing.
pub const AL_PLAYING: i32 = 0x1012;
/// Backend source state code: paused.
pub const AL_PAUSED: i32 = 0x1013;
/// Backend source state code: stopped.
pub const AL_STOPPED: i32 = 0x1014;

/// Backend error code: no error pending.
pub const AL_NO_ERROR: i32 = 0;
/// Backend error code: invalid name parameter.
pub const AL_INVALID_NAME: i32 = 0xA001;
/// Backend error code: invalid enum parameter.
pub const AL_INVALID_ENUM: i32 = 0xA002;
/// Backend error code: invalid value parameter.
pub const AL_INVALID_VALUE: i32 = 0xA003;
/// Backend error code: illegal call.
pub const AL_INVALID_OPERATION: i32 = 0xA004;
/// Backend error code: out of memory.
pub const AL_OUT_OF_MEMORY: i32 = 0xA005;

/// The auxiliary-send value that detaches any effect slot from a source.
pub const AL_EFFECTSLOT_NULL: i32 = 0x0000;

/// The fixed channel-count-to-format lookup table of the backend interface.
pub open spec fn spec_channels_format(channels: i32) -> Option<i32> {
    match channels {
        1 => Some(AL_FORMAT_MONO16),
        2 => Some(AL_FORMAT_STEREO16),
        4 => Some(AL_FORMAT_QUAD16),
        5 => Some(AL_FORMAT_51CHN16),
        6 => Some(AL_FORMAT_61CHN16),
        7 => Some(AL_FORMAT_71CHN16),
        _ => None,
    }
}

/// Map a channel count to the backend format token that plays it, or
/// `None` when the backend has no format for that channel count.
pub fn get_channels_format(channels: i32) -> (r: Option<i32>)
    ensures
        r == spec_channels_format(channels),
{
    match channels {
        1 => Some(AL_FORMAT_MONO16),
        2 => Some(AL_FORMAT_STEREO16),
        4 => Some(AL_FORMAT_QUAD16),
        5 => Some(AL_FORMAT_51CHN16),
        6 => Some(AL_FORMAT_61CHN16),
        7 => Some(AL_FORMAT_71CHN16),
        _ => None,
    }
}

/// The text that describes a backend error code.
pub open spec fn spec_al_error_message(code: i32) -> Seq<char> {
    if code == AL_INVALID_NAME {
        "OpenAL error: invalid name parameter passed to AL call."@
    } else if code == AL_INVALID_ENUM {
        "OpenAL error: invalid enum parameter passed to AL call."@
    } else if code == AL_INVALID_VALUE {
        "OpenAL error: invalid value parameter passed to AL call."@
    } else if code == AL_INVALID_OPERATION {
        "OpenAL error: illegal AL call."@
    } else if code == AL_OUT_OF_MEMORY {
        "OpenAL error: not enough memory."@
    } else {
        "OpenAL internal error: unknown error."@
    }
}

/// Describe a backend error code in words.
pub fn al_error_message(code: i32) -> (r: String)
    ensures
        r@ == spec_al_error_message(code),
{
    if code == AL_INVALID_NAME {
        String::from_str("OpenAL error: invalid name parameter passed to AL call.")
    } else if code == AL_INVALID_ENUM {
        String::from_str("OpenAL error: invalid enum parameter passed to AL call.")
    } else if code == AL_INVALID_VALUE {
        String::from_str("OpenAL error: invalid value parameter passed to AL call.")
    } else if code == AL_INVALID_OPERATION {
        String::from_str("OpenAL error: illegal AL call.")
    } else if code == AL_OUT_OF_MEMORY {
        String::from_str("OpenAL error: not enough memory.")
    } else {
        String::from_str("OpenAL internal error: unknown error.")
    }
}

/// Turn the backend's pending-error query result into `Some` error code,
/// or `None` when the backend reported that no error is pending.
pub fn openal_has_error(code: i32) -> (r: Option<i32>)
    ensures
        r == (if code == AL_NO_ERROR {
            Option::<i32>::None
        } else {
            Some(code)
        }),
{
    if code == AL_NO_ERROR {
        None
    } else {
        Some(code)
    }
}

} // verus!
