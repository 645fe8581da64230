//! Leaving the voice channel.

use crate::error::VoiceError;
use crate::queue::{Queue, QueueView};
use crate::session::{Session, SessionView};
use vstd::prelude::*;

verus! {

/// Ends the session: it is connected to no channel afterwards and its
/// queue is empty. An actor outside the session's channel is turned away
/// and nothing changes.
pub fn leave(session: &mut Session, actor_channel: Option<u64>) -> (r: Result<(), VoiceError>)
    ensures
        r is Ok <==> old(session)@.admits(actor_channel),
        match r {
            Err(e) => e == VoiceError::DifferentChannel && final(session)@ == old(session)@,
            Ok(()) => final(session)@ == (SessionView { channel: None, queue: QueueView::empty() }),
        },
{
    match session.guard(actor_channel) {
        Err(e) => Err(e),
        Ok(()) => {
            session.queue = Queue::new();
            session.channel = None;
            Ok(())
        },
    }
}

} // verus!
