//! Resuming the current track.

use crate::error::VoiceError;
use crate::session::Session;
use vstd::prelude::*;

verus! {

/// Whether there is a track to resume. The session stays as it is. An
/// actor outside the session's channel is turned away.
pub fn resume(session: &Session, actor_channel: Option<u64>) -> (r: Result<bool, VoiceError>)
    ensures
        r is Ok <==> session@.admits(actor_channel),
        match r {
            Err(e) => e == VoiceError::DifferentChannel,
            Ok(playing) => playing == (session@.queue.tracks.len() > 0),
        },
{
    match session.guard(actor_channel) {
        Err(e) => Err(e),
        Ok(()) => Ok(!session.queue.is_empty()),
    }
}

} // verus!
