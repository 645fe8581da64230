//! Queueing tracks.

use crate::error::VoiceError;
use crate::metadata::{MiniMetadata, MiniMetadataView, MiniUser, MiniUserView};
use crate::session::Session;
use crate::track::{AddedBy, Track, TrackReference, TrackReferenceView, TrackView};
use crate::utils::{create_now_playing_embed, NowPlaying};
use vstd::prelude::*;

verus! {

/// What queueing did: whether the queue was empty before, and how many
/// tracks came in.
#[derive(Debug, Clone, Copy)]
pub struct PlayOutcome {
    pub was_empty: bool,
    pub added: usize,
}

/// The tracks `tracks`, each marked as queued by `user`.
pub open spec fn queued_by(tracks: Seq<TrackView>, user: MiniUserView) -> Seq<TrackView> {
    Seq::new(
        tracks.len(),
        |i: int| TrackView { reference: tracks[i].reference, added_by: Some(user) },
    )
}

/// The values of a sequence of tracks.
pub open spec fn views(tracks: Seq<Track>) -> Seq<TrackView> {
    Seq::new(tracks.len(), |i: int| tracks[i]@)
}

/// Queues `tracks` for `user`, in their order, behind what is queued.
/// An actor outside the session's channel is turned away and nothing
/// changes.
pub fn play(
    session: &mut Session,
    actor_channel: Option<u64>,
    user: &MiniUser,
    tracks: Vec<Track>,
) -> (r: Result<PlayOutcome, VoiceError>)
    ensures
        r is Ok <==> old(session)@.admits(actor_channel),
        match r {
            Err(e) => e == VoiceError::DifferentChannel && final(session)@ == old(session)@,
            Ok(outcome) => {
                &&& final(session)@.channel == old(session)@.channel
                &&& final(session)@.queue.tracks == old(session)@.queue.tracks + queued_by(
                    tracks.deep_view(),
                    user@,
                )
                &&& final(session)@.queue.looping == old(session)@.queue.looping
                &&& outcome.was_empty == (old(session)@.queue.tracks.len() == 0)
                &&& outcome.added == tracks@.len()
            },
        },
{
    match session.guard(actor_channel) {
        Err(e) => {
            return Err(e);
        },
        Ok(()) => {},
    }
    let was_empty = session.queue.is_empty();
    let added = tracks.len();
    let ghost all = views(tracks@);
    let ghost before = session.queue@;
    proof {
        assert(tracks.deep_view() =~= all);
    }
    for track in it: tracks
        invariant
            views(it.seq()) == all,
            session.channel == old(session).channel,
            session.queue@.tracks == before.tracks + queued_by(all.take(it.index()), user@),
            session.queue@.looping == before.looping,
    {
        let mut track = track;
        track.write_added_by(user);
        session.queue.enqueue(track);
        proof {
            let i = it.index();
            assert(all.take(i + 1) =~= all.take(i).push(all[i]));
            assert(queued_by(all.take(i + 1), user@) =~= queued_by(all.take(i), user@).push(
                track@,
            ));
            assert(session.queue@.tracks =~= before.tracks + queued_by(all.take(i + 1), user@));
        }
    }
    proof {
        assert(all.take(all.len() as int) =~= all);
    }
    Ok(PlayOutcome { was_empty, added })
}

/// What the reply to queueing says.
#[derive(Debug)]
pub enum AddedReply {
    /// More than one track came in: the title counts them.
    Tracks { title: String },
    /// One track came in: the description names it.
    Track { title: String, description: String },
    /// Nothing came in, and nothing is said.
    Nothing,
}

/// What the reply shows of a track that was just queued: its metadata, or
/// for a query without an answer yet, the query as its title.
pub open spec fn added_summary(t: TrackView) -> MiniMetadataView {
    match t.reference {
        TrackReferenceView::Eager { metadata } => metadata,
        TrackReferenceView::Lazy { slot: Some(metadata), .. } => metadata,
        TrackReferenceView::Lazy { query, slot: None } => MiniMetadataView {
            title: query,
            duration: 0,
            source_url: Seq::empty(),
        },
    }
}

/// What the reply to queueing `added` tracks says, `last` being the track
/// at the end of the queue.
pub open spec fn spec_added_reply(added: nat, last: Option<TrackView>, reply: AddedReply) -> bool {
    if added > 1 {
        reply matches AddedReply::Tracks { title } && title@ == crate::utils::spec_added_title(
            added,
        )
    } else if added == 1 && last is Some {
        &&& reply matches AddedReply::Track { title, description }
        &&& title@ == "Added track:"@
        &&& description@ == crate::utils::spec_track_line(added_summary(last->0))
    } else {
        reply is Nothing
    }
}

/// Composes the reply to a successful [`play`].
pub fn added_reply(session: &Session, outcome: PlayOutcome) -> (reply: AddedReply)
    ensures
        spec_added_reply(
            outcome.added as nat,
            if session@.queue.tracks.len() > 0 {
                Some(session@.queue.tracks.last())
            } else {
                None
            },
            reply,
        ),
{
    let n = session.queue.len();
    if outcome.added > 1 {
        AddedReply::Tracks { title: crate::utils::added_title(outcome.added as u64) }
    } else if outcome.added == 1 && n > 0 {
        let summary = match session.queue.get(n - 1) {
            Some(track) => match &track.reference {
                TrackReference::Eager { metadata } => metadata.clone(),
                TrackReference::Lazy { slot: Some(metadata), .. } => metadata.clone(),
                TrackReference::Lazy { query, slot: None } => MiniMetadata {
                    title: query.clone(),
                    duration: 0,
                    source_url: String::new(),
                },
            },
            None => MiniMetadata::empty(),
        };
        AddedReply::Track {
            title: "Added track:".to_owned(),
            description: crate::utils::track_line(&summary),
        }
    } else {
        AddedReply::Nothing
    }
}

/// The metadata under which a track is announced when it starts: its own,
/// or what a search has filled in. A query without an answer is not
/// announced.
pub open spec fn announced(t: TrackView) -> Option<MiniMetadataView> {
    match t.reference {
        TrackReferenceView::Eager { metadata } => Some(metadata),
        TrackReferenceView::Lazy { slot, .. } => slot,
    }
}

/// The card that announces the current track after a [`play`] into an
/// empty queue. Where the queue held tracks before, or the current track
/// is a query without an answer, there is none.
pub fn announcement(session: &Session, outcome: PlayOutcome) -> (card: Option<NowPlaying>)
    ensures
        match card {
            Some(c) => {
                &&& outcome.was_empty
                &&& session@.queue.current() matches Some(t)
                &&& announced(t) matches Some(m)
                &&& c.announces(m, t.added_by)
            },
            None => !outcome.was_empty || session@.queue.current() is None || announced(
                session@.queue.current()->0,
            ) is None,
        },
{
    if !outcome.was_empty {
        return None;
    }
    match session.queue.current() {
        None => None,
        Some(track) => {
            let metadata = match &track.reference {
                TrackReference::Eager { metadata } => Some(metadata.clone()),
                TrackReference::Lazy { slot: Some(metadata), .. } => Some(metadata.clone()),
                TrackReference::Lazy { slot: None, .. } => None,
            };
            match metadata {
                Some(m) => Some(create_now_playing_embed(m, track.read_added_by())),
                None => None,
            }
        },
    }
}

} // verus!
