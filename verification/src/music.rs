//! The playback session and its transport decisions.
//!
//! A `Music` value stands for one streaming source: the backend source
//! and buffer handles, the open file's metadata, the chunk size of each
//! refill, and the session-side mirrors of the looping flag and the
//! worker's lifetime. The decode cursor itself is shared between the
//! session and the worker and owned by the host; the functions here take
//! its current value and the backend's live query results as arguments
//! and decide everything else.
//!
//! Pause and stop carry no decision of their own — they are forwarded to
//! the backend, which alone decides the transport state (see
//! `crate::states` for the transitions it performs).

use crate::channel::ControlMessage;
use crate::error::SoundError;
use crate::fill::FRAME_BOUND;
use crate::offset::calculate_true_offset;
use crate::offset::spec_true_offset;
use crate::openal::get_channels_format;
use crate::openal::spec_channels_format;
use crate::openal::AL_EFFECTSLOT_NULL;
use crate::openal::AL_NO_ERROR;
use crate::reverb_effect::ReverbEffect;
use crate::states::spec_state_of_code;
use crate::states::spec_valid_state_code;
use crate::states::state_of_code;
use crate::states::TransportState;
use vstd::arithmetic::div_mod::lemma_multiply_divide_lt;
use vstd::prelude::*;

verus! {

/// Frames read into one buffer per refill cycle.
pub const CHUNK_FRAMES: i64 = 50000;

/// A streaming source uses exactly two backend buffers: one sounding,
/// one queued.
pub const BUFFER_COUNT: usize = 2;

/// What the decoder reports about an opened file: the total frame count,
/// the sample rate and the channel count.
#[derive(Clone, Copy, Debug, PartialEq, Eq, Structural)]
pub struct FileInfo {
    pub frames: i64,
    pub samplerate: i32,
    pub channels: i32,
}

/// A duration split into whole seconds and the exact sub-second
/// remainder in nanoseconds, with no floating rounding of either part.
#[derive(Clone, Copy, Debug, PartialEq, Eq, Structural)]
pub struct DurationParts {
    pub secs: u64,
    pub nanos: u32,
}

/// What a play call does: resume the paused backend source, or start a
/// fresh play cycle — stopping the still-playing source first when
/// needed, rewinding to the start frame, priming both buffers and
/// spawning the worker.
#[derive(Clone, Copy, Debug, PartialEq, Eq, Structural)]
pub enum PlayAction {
    Resume,
    Restart { stop_first: bool, start_frame: i64 },
}

/// Where a seek goes while no worker runs, or travels as a message while
/// one does.
#[derive(Clone, Copy, Debug, PartialEq, Eq, Structural)]
pub enum OffsetAction {
    StoreCursor(i64),
    SendMessage(ControlMessage),
}

/// One streaming playback session.
#[derive(Debug, PartialEq)]
pub struct Music {
    /// The backend source handle.
    pub al_source: u32,
    /// The two backend buffer handles the source cycles through.
    pub al_buffers: [u32; 2],
    /// What the decoder reported about the file.
    pub file_infos: FileInfo,
    /// Samples read per refill cycle: one chunk of frames, interleaved
    /// over all channels.
    pub sample_to_read: i64,
    /// The backend format token for the file's channel count.
    pub sample_format: i32,
    /// Session-side mirror of the looping flag, updated immediately so a
    /// caller reads its own change back before the worker applies it.
    pub is_looping: bool,
    /// Whether a worker currently owns the refill loop.
    pub worker_active: bool,
}

/// A session whose metadata is usable: the frame count and sample rate
/// are in range and the format token matches the channel count's entry
/// in the backend's lookup table.
pub open spec fn spec_music_wf(m: Music) -> bool {
    &&& 0 <= m.file_infos.frames <= FRAME_BOUND
    &&& m.file_infos.samplerate >= 1
    &&& spec_channels_format(m.file_infos.channels) == Some(m.sample_format)
    &&& m.sample_to_read == CHUNK_FRAMES * m.file_infos.channels
}

impl Music {
    /// Judge the opening steps that precede any backend allocation:
    /// without an active context nothing is opened, and a decoder
    /// failure surfaces as a decode error carrying the decoder's
    /// description. Only a file that passed both checks is worth
    /// allocating backend handles for.
    pub fn open_file_check(context_ok: bool, decode: Result<FileInfo, String>) -> (r: Result<
        FileInfo,
        SoundError,
    >)
        ensures
            !context_ok ==> r == Err::<FileInfo, _>(SoundError::BackendUnavailable),
            context_ok && decode is Err ==> r == Err::<FileInfo, _>(
                SoundError::DecodeError(decode->Err_0),
            ),
            context_ok && decode is Ok ==> r == Ok::<_, SoundError>(decode->Ok_0),
    {
        if !context_ok {
            return Err(SoundError::BackendUnavailable);
        }
        match decode {
            Ok(info) => Ok(info),
            Err(msg) => Err(SoundError::DecodeError(msg)),
        }
    }

    /// Assemble the session once the file is open and the backend
    /// handles exist: a channel count without a format mapping is
    /// rejected, as is a pending backend error code from the
    /// allocations; otherwise the session starts at the initial state,
    /// not looping, with no worker.
    pub fn new(info: FileInfo, source_id: u32, buffer_ids: [u32; 2], error_code: i32) -> (r:
        Result<Music, SoundError>)
        requires
            0 <= info.frames <= FRAME_BOUND,
            info.samplerate >= 1,
        ensures
            spec_channels_format(info.channels) is None ==> r == Err::<Music, _>(
                SoundError::UnsupportedFormat,
            ),
            spec_channels_format(info.channels) is Some && error_code != AL_NO_ERROR ==> r
                == Err::<Music, _>(SoundError::BackendInternalError(error_code)),
            spec_channels_format(info.channels) is Some && error_code == AL_NO_ERROR ==> r
                == Ok::<_, SoundError>(
                Music {
                    al_source: source_id,
                    al_buffers: buffer_ids,
                    file_infos: info,
                    sample_to_read: (CHUNK_FRAMES * info.channels) as i64,
                    sample_format: spec_channels_format(info.channels)->0,
                    is_looping: false,
                    worker_active: false,
                },
            ),
            r matches Ok(m) ==> spec_music_wf(m),
    {
        let format = match get_channels_format(info.channels) {
            Some(fmt) => fmt,
            None => {
                return Err(SoundError::UnsupportedFormat);
            },
        };
        if error_code != AL_NO_ERROR {
            return Err(SoundError::BackendInternalError(error_code));
        }
        Ok(
            Music {
                al_source: source_id,
                al_buffers: buffer_ids,
                file_infos: info,
                sample_to_read: CHUNK_FRAMES * (info.channels as i64),
                sample_format: format,
                is_looping: false,
                worker_active: false,
            },
        )
    }

    /// Decide a play call from the backend's current state: a paused
    /// source is simply resumed, with no new worker; any other state
    /// starts a fresh play cycle from frame zero — force-stopping the
    /// source first when it is still playing — and the session counts a
    /// worker as active from here on.
    pub fn play(&mut self, current_state: TransportState) -> (r: PlayAction)
        ensures
            current_state is Paused ==> r == PlayAction::Resume && *final(self) == *old(self),
            !(current_state is Paused) ==> r == (PlayAction::Restart {
                stop_first: current_state is Playing,
                start_frame: 0,
            }) && *final(self) == (Music { worker_active: true, ..*old(self) }),
    {
        match current_state {
            TransportState::Paused => PlayAction::Resume,
            _ => {
                let stop_first = match current_state {
                    TransportState::Playing => true,
                    _ => false,
                };
                self.worker_active = true;
                PlayAction::Restart { stop_first, start_frame: 0 }
            },
        }
    }

    /// Record that the worker has exited and been joined: transport
    /// commands go back to acting directly on the session.
    pub fn worker_finished(&mut self)
        ensures
            *final(self) == (Music { worker_active: false, ..*old(self) }),
    {
        self.worker_active = false;
    }

    /// Mirror the session's transport state from the backend's
    /// source-state query: without an active context a session counts as
    /// initial.
    pub fn get_state(&self, context_ok: bool, state_code: i32) -> (r: TransportState)
        requires
            context_ok ==> spec_valid_state_code(state_code),
        ensures
            !context_ok ==> r == TransportState::Initial,
            context_ok ==> r == spec_state_of_code(state_code),
    {
        if !context_ok {
            return TransportState::Initial;
        }
        state_of_code(state_code)
    }

    /// Whether the backend reports this session playing.
    pub fn is_playing(&self, context_ok: bool, state_code: i32) -> (r: bool)
        requires
            context_ok ==> spec_valid_state_code(state_code),
        ensures
            r == (context_ok && spec_state_of_code(state_code) is Playing),
    {
        if !context_ok {
            return false;
        }
        match state_of_code(state_code) {
            TransportState::Playing => true,
            _ => false,
        }
    }

    /// Update the looping flag: the session-side mirror changes
    /// immediately, and when a worker is active the change also travels
    /// to it as a message — applied to buffer content within one poll
    /// interval.
    pub fn set_looping(&mut self, looping: bool) -> (r: Option<ControlMessage>)
        ensures
            *final(self) == (Music { is_looping: looping, ..*old(self) }),
            old(self).worker_active ==> r == Some(ControlMessage::SetLooping(looping)),
            !old(self).worker_active ==> r is None,
    {
        self.is_looping = looping;
        if self.worker_active {
            Some(ControlMessage::SetLooping(looping))
        } else {
            None
        }
    }

    /// Whether the session is set to loop.
    pub fn is_looping(&self) -> (r: bool)
        ensures
            r == self.is_looping,
    {
        self.is_looping
    }

    /// Decide a seek: while a worker runs, the request travels to it as
    /// a message and takes effect on its next poll; otherwise the shared
    /// cursor is set directly.
    pub fn set_offset(&self, offset: i32) -> (r: OffsetAction)
        requires
            0 <= offset,
        ensures
            self.worker_active ==> r == OffsetAction::SendMessage(
                ControlMessage::SetOffset(offset as i64),
            ),
            !self.worker_active ==> r == OffsetAction::StoreCursor(offset as i64),
    {
        if self.worker_active {
            OffsetAction::SendMessage(ControlMessage::SetOffset(offset as i64))
        } else {
            OffsetAction::StoreCursor(offset as i64)
        }
    }

    /// The frame currently being heard, reconciled from the shared
    /// cursor and the backend's live queued-buffer count and sample
    /// offset. A point-in-time estimate: the worker may move the cursor
    /// concurrently.
    pub fn get_offset(&self, cursor: i64, buffers_queued: i32, source_offset: i32) -> (r: i32)
        requires
            spec_music_wf(*self),
            0 <= cursor <= FRAME_BOUND,
            0 <= buffers_queued <= BUFFER_COUNT,
        ensures
            r == spec_true_offset(
                self.file_infos.frames as int,
                cursor as int,
                CHUNK_FRAMES as int,
                buffers_queued as int,
                source_offset as int,
            ),
    {
        calculate_true_offset(
            self.file_infos.frames,
            cursor,
            CHUNK_FRAMES,
            buffers_queued,
            source_offset,
        )
    }

    /// The auxiliary-send value that connects this session's source to a
    /// reverb effect's slot — or detaches every effect when no effect is
    /// given.
    pub fn connect(&self, reverb_effect: &Option<ReverbEffect>) -> (r: i32)
        requires
            reverb_effect matches Some(e) ==> e.effect_slot_id <= i32::MAX,
        ensures
            reverb_effect matches Some(e) ==> r == e.effect_slot_id,
            reverb_effect is None ==> r == AL_EFFECTSLOT_NULL,
    {
        match reverb_effect {
            Some(effect) => effect.slot() as i32,
            None => AL_EFFECTSLOT_NULL,
        }
    }

    /// The file's duration: whole seconds, and the exact sub-second
    /// remainder carried over into nanoseconds.
    pub fn get_duration(&self) -> (r: DurationParts)
        requires
            spec_music_wf(*self),
        ensures
            r.secs == self.file_infos.frames as int / self.file_infos.samplerate as int,
            r.nanos == self.file_infos.frames as int % self.file_infos.samplerate as int
                * 1_000_000_000 / self.file_infos.samplerate as int,
            r.nanos < 1_000_000_000,
    {
        let frames = self.file_infos.frames as u64;
        let sample_rate = self.file_infos.samplerate as u64;
        let secs = frames / sample_rate;
        let rem = frames % sample_rate;
        proof {
            assert(rem < sample_rate);
            assert(rem * 1_000_000_000 < sample_rate * 1_000_000_000) by (nonlinear_arith)
                requires
                    rem < sample_rate,
            ;
            assert(sample_rate * 1_000_000_000 <= 0x7fff_ffff * 1_000_000_000) by (nonlinear_arith)
                requires
                    sample_rate <= 0x7fff_ffff,
            ;
            lemma_multiply_divide_lt(
                rem as int * 1_000_000_000,
                sample_rate as int,
                1_000_000_000,
            );
        }
        let nanos = rem * 1_000_000_000 / sample_rate;
        DurationParts { secs, nanos: nanos as u32 }
    }
}

} // verus!
