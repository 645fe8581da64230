//! Stopping playback and emptying the queue.

use crate::error::VoiceError;
use crate::session::Session;
use crate::track::Track;
use vstd::prelude::*;

verus! {

/// Empties the queue. The track that was current is handed back: its
/// playback is to be stopped before anything else. An actor outside the
/// session's channel is turned away and nothing changes.
pub fn stop(session: &mut Session, actor_channel: Option<u64>) -> (r: Result<
    Option<Track>,
    VoiceError,
>)
    ensures
        r is Ok <==> old(session)@.admits(actor_channel),
        match r {
            Err(e) => e == VoiceError::DifferentChannel && final(session)@ == old(session)@,
            Ok(stopped) => {
                &&& final(session)@.channel == old(session)@.channel
                &&& final(session)@.queue == old(session)@.queue.cleared()
                &&& stopped.deep_view() == old(session)@.queue.current()
            },
        },
{
    match session.guard(actor_channel) {
        Err(e) => Err(e),
        Ok(()) => Ok(session.queue.clear()),
    }
}

} // verus!
