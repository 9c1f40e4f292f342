//! The refill worker's state machine.
//!
//! One worker runs per active play cycle. Each poll iteration it drains
//! the control channel, refills the buffers the backend has finished
//! with, restarts the backend once after a seek, and exits when the
//! backend reports a stopped source. The decisions of that loop live
//! here; the host program performs the backend and decoder calls between
//! them.

use crate::channel::ControlMessage;
use crate::fill::fill_chunk;
use crate::fill::spec_fill_cursor;
use crate::fill::spec_fill_len;
use crate::fill::FRAME_BOUND;
use crate::states::TransportState;
use vstd::prelude::*;

verus! {

/// The worker's own view of the stream between two poll iterations: the
/// looping flag its fills use, the decode cursor, and whether a seek has
/// stopped the backend so that playback must restart once a buffer has
/// been refilled from the new position.
pub struct WorkerState {
    pub looping: bool,
    pub cursor: i64,
    pub restart_pending: bool,
}

/// A worker state whose cursor is a usable frame index.
pub open spec fn spec_worker_wf(w: WorkerState) -> bool {
    0 <= w.cursor <= FRAME_BOUND
}

/// The worker state after one control message is applied.
pub open spec fn spec_apply_message(w: WorkerState, m: ControlMessage) -> WorkerState {
    match m {
        ControlMessage::SetLooping(v) => WorkerState { looping: v, ..w },
        ControlMessage::SetOffset(f) => WorkerState { cursor: f, restart_pending: true, ..w },
    }
}

/// Whether a message makes the worker stop the backend source: a seek
/// does, so that the stale buffer content can be swapped out before
/// playback goes on from the new position.
pub open spec fn spec_message_stops_backend(m: ControlMessage) -> bool {
    m is SetOffset
}

/// The worker state after a sequence of control messages is applied in
/// order, first message first.
pub open spec fn spec_apply_messages(w: WorkerState, msgs: Seq<ControlMessage>) -> WorkerState
    decreases msgs.len(),
{
    if msgs.len() == 0 {
        w
    } else {
        spec_apply_messages(spec_apply_message(w, msgs[0]), msgs.subrange(1, msgs.len() as int))
    }
}

/// Whether any message of a sequence stops the backend.
pub open spec fn spec_messages_stop_backend(msgs: Seq<ControlMessage>) -> bool {
    exists|i: int| 0 <= i < msgs.len() && spec_message_stops_backend(msgs[i])
}

impl WorkerState {
    /// The worker state at the start of a play cycle.
    pub fn start(looping: bool, cursor: i64) -> (r: WorkerState)
        requires
            0 <= cursor <= FRAME_BOUND,
        ensures
            r.looping == looping,
            r.cursor == cursor,
            !r.restart_pending,
            spec_worker_wf(r),
    {
        WorkerState { looping, cursor, restart_pending: false }
    }

    /// Apply one control message: a looping toggle changes the flag the
    /// following fills use; a seek moves the cursor and marks the pending
    /// restart. Returns whether the backend source must be stopped now.
    pub fn apply_message(&mut self, m: ControlMessage) -> (stop_backend: bool)
        requires
            spec_worker_wf(*old(self)),
            m matches ControlMessage::SetOffset(f) ==> 0 <= f <= FRAME_BOUND,
        ensures
            *final(self) == spec_apply_message(*old(self), m),
            stop_backend == spec_message_stops_backend(m),
            spec_worker_wf(*final(self)),
    {
        match m {
            ControlMessage::SetLooping(v) => {
                self.looping = v;
                false
            },
            ControlMessage::SetOffset(f) => {
                self.cursor = f;
                self.restart_pending = true;
                true
            },
        }
    }

    /// Drain one poll's worth of control messages, applying each in the
    /// order it was sent. Returns whether any of them stopped the backend
    /// source.
    pub fn apply_messages(&mut self, msgs: &Vec<ControlMessage>) -> (stop_backend: bool)
        requires
            spec_worker_wf(*old(self)),
            forall|i: int|
                0 <= i < msgs@.len() ==> ((#[trigger] msgs@[i]) matches ControlMessage::SetOffset(f)
                    ==> 0 <= f <= FRAME_BOUND),
        ensures
            *final(self) == spec_apply_messages(*old(self), msgs@),
            stop_backend == spec_messages_stop_backend(msgs@),
            spec_worker_wf(*final(self)),
    {
        let ghost all = msgs@;
        proof {
            assert(all.subrange(0, all.len() as int) =~= all);
        }
        let mut stop = false;
        let mut i: usize = 0;
        while i < msgs.len()
            invariant
                0 <= i <= msgs@.len(),
                msgs@ == all,
                forall|j: int|
                    0 <= j < all.len() ==> ((#[trigger] all[j]) matches ControlMessage::SetOffset(f)
                        ==> 0 <= f <= FRAME_BOUND),
                spec_worker_wf(*self),
                spec_apply_messages(*self, all.subrange(i as int, all.len() as int))
                    == spec_apply_messages(*old(self), all),
                stop == spec_messages_stop_backend(all.subrange(0, i as int)),
            decreases msgs@.len() - i,
        {
            let ghost rest = all.subrange(i as int, all.len() as int);
            let m = msgs[i];
            let stopped = self.apply_message(m);
            stop = stop || stopped;
            i = i + 1;
            proof {
                assert(rest.subrange(1, rest.len() as int) =~= all.subrange(
                    i as int,
                    all.len() as int,
                ));
                if stop {
                    let prev = all.subrange(0, i - 1);
                    if spec_messages_stop_backend(prev) {
                        let w = choose|w: int|
                            0 <= w < prev.len() && spec_message_stops_backend(prev[w]);
                        assert(all.subrange(0, i as int)[w] == prev[w]);
                    } else {
                        assert(all.subrange(0, i as int)[i - 1] == m);
                    }
                } else {
                    assert(forall|j: int|
                        0 <= j < i ==> !spec_message_stops_backend(
                            #[trigger] all.subrange(0, i as int)[j],
                        ));
                }
            }
        }
        proof {
            assert(all.subrange(i as int, all.len() as int) =~= Seq::<ControlMessage>::empty());
            assert(all.subrange(0, i as int) =~= all);
        }
        stop
    }

    /// Refill one processed buffer under the ideal decoder: the fill runs
    /// from the worker's cursor with the worker's current looping flag,
    /// and the cursor moves to where the fill ends. Returns the number of
    /// frames filled.
    pub fn refill(&mut self, total_frames: i64, capacity: i64) -> (filled: i64)
        requires
            spec_worker_wf(*old(self)),
            0 <= total_frames <= FRAME_BOUND,
            0 <= capacity <= FRAME_BOUND,
            old(self).looping ==> total_frames >= 1,
        ensures
            filled == spec_fill_len(
                total_frames as int,
                old(self).cursor as int,
                capacity as int,
                old(self).looping,
            ),
            final(self).cursor == spec_fill_cursor(
                total_frames as int,
                old(self).cursor as int,
                capacity as int,
                old(self).looping,
            ),
            final(self).looping == old(self).looping,
            final(self).restart_pending == old(self).restart_pending,
            spec_worker_wf(*final(self)),
    {
        let (filled, new_cursor) = fill_chunk(total_frames, self.cursor, capacity, self.looping);
        proof {
            if !self.looping {
                assert(new_cursor <= if total_frames >= self.cursor {
                    total_frames as int
                } else {
                    self.cursor as int
                });
            }
        }
        self.cursor = new_cursor;
        filled
    }

    /// Consume the pending-restart mark: true exactly once after a seek,
    /// after at least one buffer has been refilled from the new position,
    /// so that the host restarts backend playback then and only then.
    pub fn take_restart(&mut self) -> (restart: bool)
        ensures
            restart == old(self).restart_pending,
            !final(self).restart_pending,
            final(self).looping == old(self).looping,
            final(self).cursor == old(self).cursor,
    {
        let r = self.restart_pending;
        self.restart_pending = false;
        r
    }
}

/// Messages without a seek leave the cursor and the pending restart
/// alone: only a `SetOffset` ever moves them.
pub proof fn lemma_no_seek_keeps_cursor(w: WorkerState, msgs: Seq<ControlMessage>)
    requires
        forall|i: int| 0 <= i < msgs.len() ==> !((#[trigger] msgs[i]) is SetOffset),
    ensures
        spec_apply_messages(w, msgs).cursor == w.cursor,
        spec_apply_messages(w, msgs).restart_pending == w.restart_pending,
    decreases msgs.len(),
{
    if msgs.len() > 0 {
        let rest = msgs.subrange(1, msgs.len() as int);
        assert(forall|i: int| 0 <= i < rest.len() ==> rest[i] == msgs[i + 1]);
        lemma_no_seek_keeps_cursor(spec_apply_message(w, msgs[0]), rest);
    }
}

/// Of several seeks queued before one poll, the latest one wins: after
/// the whole drain is applied in send order, the cursor stands at the
/// last seek's frame and a restart is pending.
pub proof fn lemma_last_seek_wins(w: WorkerState, msgs: Seq<ControlMessage>, j: int)
    requires
        0 <= j < msgs.len(),
        msgs[j] is SetOffset,
        forall|k: int| j < k < msgs.len() ==> !((#[trigger] msgs[k]) is SetOffset),
    ensures
        spec_apply_messages(w, msgs).cursor == msgs[j]->SetOffset_0,
        spec_apply_messages(w, msgs).restart_pending,
    decreases msgs.len(),
{
    let rest = msgs.subrange(1, msgs.len() as int);
    assert(forall|i: int| 0 <= i < rest.len() ==> rest[i] == msgs[i + 1]);
    let w1 = spec_apply_message(w, msgs[0]);
    if j == 0 {
        lemma_no_seek_keeps_cursor(w1, rest);
    } else {
        lemma_last_seek_wins(w1, rest, j - 1);
    }
}

/// Whether the worker's poll loop exits: it does exactly when the backend
/// reports a stopped source.
pub fn worker_should_exit(status: TransportState) -> (r: bool)
    ensures
        r == (status is Stopped),
{
    match status {
        TransportState::Stopped => true,
        _ => false,
    }
}

} // verus!
