//! Switching the repetition of the current track on and off.

use crate::error::VoiceError;
use crate::queue::LoopState;
use crate::session::Session;
use vstd::prelude::*;

verus! {

/// What is said after the loop flag has changed to `now`.
pub open spec fn loop_reply(now: LoopState) -> Seq<char> {
    match now {
        LoopState::RepeatCurrent => "Looping Enabled"@,
        LoopState::Off => "Looping Disabled"@,
    }
}

/// Flips the loop flag and returns the reply. With nothing queued there is
/// no track to repeat: nothing changes and nothing is said. An actor
/// outside the session's channel is turned away and nothing changes.
pub fn loopc(session: &mut Session, actor_channel: Option<u64>) -> (r: Result<
    Option<&'static str>,
    VoiceError,
>)
    ensures
        r is Ok <==> old(session)@.admits(actor_channel),
        match r {
            Err(e) => e == VoiceError::DifferentChannel && final(session)@ == old(session)@,
            Ok(reply) => {
                &&& final(session)@.channel == old(session)@.channel
                &&& final(session)@.queue == (if old(session)@.queue.tracks.len() > 0 {
                    old(session)@.queue.toggled()
                } else {
                    old(session)@.queue
                })
                &&& match reply {
                    Some(text) => old(session)@.queue.tracks.len() > 0 && text@ == loop_reply(
                        final(session)@.queue.looping,
                    ),
                    None => old(session)@.queue.tracks.len() == 0,
                }
            },
        },
{
    match session.guard(actor_channel) {
        Err(e) => {
            return Err(e);
        },
        Ok(()) => {},
    }
    if session.queue.is_empty() {
        return Ok(None);
    }
    match session.queue.toggle_loop() {
        LoopState::RepeatCurrent => Ok(Some("Looping Enabled")),
        LoopState::Off => Ok(Some("Looping Disabled")),
    }
}

} // verus!
