//! Recording audio from the capture device.
//!
//! A recorder runs its capture loop on a task of its own; the host owns
//! that loop and the capture calls. The recorder's control state — when
//! a recording is running, what stopping it yields, when there is
//! anything to save — is decided here.

use crate::music::FileInfo;
use crate::context::RecordContext;
use vstd::prelude::*;

verus! {

/// The sample rate recordings are captured at.
pub const RECORD_SAMPLE_RATE: i32 = 44100;

/// One audio recorder on an opened capture device.
pub struct Recorder {
    /// The capture context recording runs on.
    pub ctxt: RecordContext,
    /// Whether a capture task is currently recording.
    pub recording: bool,
    /// The samples the last recording delivered.
    pub samples: Vec<i16>,
}

impl Recorder {
    /// A new recorder on the given capture context, idle and empty.
    pub fn new(record_context: RecordContext) -> (r: Recorder)
        ensures
            r.ctxt == record_context,
            !r.recording,
            r.samples@ == Seq::<i16>::empty(),
    {
        Recorder { ctxt: record_context, recording: false, samples: Vec::new() }
    }

    /// Start recording: the host spawns the capture task, and the
    /// recorder counts as recording until it is stopped.
    pub fn start(&mut self)
        ensures
            final(self).recording,
            final(self).ctxt == old(self).ctxt,
            final(self).samples == old(self).samples,
    {
        self.recording = true;
    }

    /// Stop recording: the samples the capture task delivered become the
    /// recorder's content and true is returned; stopping a recorder that
    /// was not recording changes nothing and returns false.
    pub fn stop(&mut self, data: Vec<i16>) -> (r: bool)
        ensures
            old(self).recording ==> r && final(self).samples == data && !final(self).recording
                && final(self).ctxt == old(self).ctxt,
            !old(self).recording ==> !r && *final(self) == *old(self),
    {
        if self.recording {
            self.samples = data;
            self.recording = false;
            true
        } else {
            false
        }
    }

    /// What saving the recording would write: the file metadata for the
    /// captured samples, or nothing when no samples were recorded —
    /// saving an empty recorder fails without touching a file.
    pub fn save_info(&self) -> (r: Option<FileInfo>)
        requires
            self.samples@.len() <= i64::MAX,
        ensures
            self.samples@.len() == 0 ==> r is None,
            self.samples@.len() > 0 ==> r == Some(
                FileInfo {
                    frames: self.samples@.len() as i64,
                    samplerate: RECORD_SAMPLE_RATE,
                    channels: 1,
                },
            ),
    {
        if self.samples.len() == 0 {
            None
        } else {
            Some(
                FileInfo {
                    frames: self.samples.len() as i64,
                    samplerate: RECORD_SAMPLE_RATE,
                    channels: 1,
                },
            )
        }
    }
}

} // verus!
