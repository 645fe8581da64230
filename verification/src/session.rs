//! One voice session: the channel it plays in and its queue.

use crate::error::VoiceError;
use crate::queue::{Queue, QueueView};
use vstd::prelude::*;

verus! {

/// The mathematical value of a [`Session`].
pub struct SessionView {
    pub channel: Option<u64>,
    pub queue: QueueView,
}

impl SessionView {
    /// Whether an actor in `actor_channel` may change the session: the
    /// actor is in the channel that the session plays in.
    pub open spec fn admits(self, actor_channel: Option<u64>) -> bool {
        actor_channel == self.channel
    }
}

/// The queue of one voice session with the channel that the session is
/// connected to.
#[derive(Debug)]
pub struct Session {
    pub channel: Option<u64>,
    pub queue: Queue,
}

impl View for Session {
    type V = SessionView;

    open spec fn view(&self) -> SessionView {
        SessionView { channel: self.channel, queue: self.queue@ }
    }
}

impl Session {
    /// A session connected to `channel`, with nothing queued.
    pub fn new(channel: Option<u64>) -> (s: Session)
        ensures
            s@ == (SessionView { channel, queue: QueueView::empty() }),
    {
        Session { channel, queue: Queue::new() }
    }

    /// Checks that the actor shares the channel of the session.
    pub fn guard(&self, actor_channel: Option<u64>) -> (r: Result<(), VoiceError>)
        ensures
            r is Ok <==> self@.admits(actor_channel),
            r is Err ==> r == Err::<(), VoiceError>(VoiceError::DifferentChannel),
    {
        let same = match (actor_channel, self.channel) {
            (Some(a), Some(c)) => a == c,
            (None, None) => true,
            _ => false,
        };
        if same {
            Ok(())
        } else {
            Err(VoiceError::DifferentChannel)
        }
    }
}

} // verus!
