//! The control channel from the transport front end to the worker.
//!
//! Transport commands that have to reach the refill worker travel as a
//! closed set of messages through a single-producer, single-consumer
//! queue. Messages are delivered in send order and polled non-blockingly,
//! once per refill iteration; none is reordered or dropped.

use vstd::prelude::*;

verus! {

/// A control message from the session front end to the refill worker.
#[derive(Clone, Copy, Debug, PartialEq, Eq, Structural)]
pub enum ControlMessage {
    /// Switch looping on or off for the fills that follow.
    SetLooping(bool),
    /// Move playback to the given frame.
    SetOffset(i64),
}

/// The ordered queue of control messages: sent at the back, received at
/// the front, so that messages are applied in exactly the order they
/// were sent.
pub struct ControlChannel {
    pub queue: Vec<ControlMessage>,
}

impl ControlChannel {
    /// An empty channel.
    pub fn new() -> (r: ControlChannel)
        ensures
            r.queue@ == Seq::<ControlMessage>::empty(),
    {
        ControlChannel { queue: Vec::new() }
    }

    /// Send a message: it joins the back of the queue, behind everything
    /// sent before it.
    pub fn send(&mut self, m: ControlMessage)
        ensures
            final(self).queue@ == old(self).queue@.push(m),
    {
        self.queue.push(m);
    }

    /// Receive without blocking: the oldest unreceived message leaves the
    /// front of the queue, or `None` when the channel is empty.
    pub fn try_recv(&mut self) -> (r: Option<ControlMessage>)
        ensures
            old(self).queue@.len() == 0 ==> r is None && final(self).queue@ == old(self).queue@,
            old(self).queue@.len() > 0 ==> r == Some(old(self).queue@[0]) && final(self).queue@
                == old(self).queue@.subrange(1, old(self).queue@.len() as int),
    {
        if self.queue.len() == 0 {
            None
        } else {
            Some(self.queue.remove(0))
        }
    }
}

} // verus!
