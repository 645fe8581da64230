//! Skipping the current track.

use crate::error::VoiceError;
use crate::session::Session;
use crate::track::Track;
use vstd::prelude::*;

verus! {

/// Drops the current track and promotes the next one; the track that left
/// is handed back, for its playback to be stopped. With nothing queued
/// nothing changes. An actor outside the session's channel is turned away
/// and nothing changes.
pub fn skip_inner(session: &mut Session, actor_channel: Option<u64>) -> (r: Result<
    Option<Track>,
    VoiceError,
>)
    ensures
        r is Ok <==> old(session)@.admits(actor_channel),
        match r {
            Err(e) => e == VoiceError::DifferentChannel && final(session)@ == old(session)@,
            Ok(left) => {
                &&& final(session)@.channel == old(session)@.channel
                &&& final(session)@.queue == old(session)@.queue.advanced()
                &&& left.deep_view() == old(session)@.queue.current()
            },
        },
{
    match session.guard(actor_channel) {
        Err(e) => Err(e),
        Ok(()) => Ok(session.queue.advance()),
    }
}

/// The skip command: see [`skip_inner`].
pub fn skip(session: &mut Session, actor_channel: Option<u64>) -> (r: Result<
    Option<Track>,
    VoiceError,
>)
    ensures
        r is Ok <==> old(session)@.admits(actor_channel),
        match r {
            Err(e) => e == VoiceError::DifferentChannel && final(session)@ == old(session)@,
            Ok(left) => {
                &&& final(session)@.channel == old(session)@.channel
                &&& final(session)@.queue == old(session)@.queue.advanced()
                &&& left.deep_view() == old(session)@.queue.current()
            },
        },
{
    skip_inner(session, actor_channel)
}

} // verus!
