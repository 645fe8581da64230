//! What happens when the player reports that a track plays.

use crate::queue::{Queue, QueueView};
use crate::track::{AddedBy, LazyMetadataTrait, SearchResult, SearchResultView};
use crate::utils::{create_now_playing_embed, NowPlaying};
use vstd::prelude::*;

verus! {

/// Seconds that the announcement of a track stays before it is deleted.
pub const ANNOUNCEMENT_LIFETIME: u64 = 10;

/// The queue after the player has reported, at `play_time` seconds into
/// the current track, that it plays, the search for the track having
/// brought `outcome`. Only at the start of the track does the current
/// track get a resolution attempt.
pub open spec fn after_report(
    queue: QueueView,
    play_time: u64,
    outcome: Option<SearchResultView>,
) -> QueueView {
    if play_time == 0 && queue.tracks.len() > 0 {
        QueueView {
            tracks: queue.tracks.update(0, queue.tracks[0].resolved_with(outcome)),
            looping: queue.looping,
        }
    } else {
        queue
    }
}

/// Whether a report at `play_time` seconds wants the search for the
/// current track made first: the track starts and is a query without an
/// answer.
pub open spec fn report_wants_search(queue: QueueView, play_time: u64) -> bool {
    play_time == 0 && queue.tracks.len() > 0 && queue.tracks[0].unresolved()
}

/// The query to search for before [`act`] takes the report, if any.
pub fn pending_search(queue: &Queue, play_time: u64) -> (query: Option<String>)
    ensures
        query is Some <==> report_wants_search(queue@, play_time),
        query matches Some(q) ==> queue@.tracks[0].pending_query() == Some(q@),
{
    if play_time != 0 {
        return None;
    }
    match queue.current() {
        Some(track) => match track.pending_query() {
            Some(q) => Some(q.to_owned()),
            None => None,
        },
        None => None,
    }
}

/// Takes the report that the current track plays, `play_time` seconds
/// into it. At the start of the track the current track gets its
/// resolution attempt with `outcome`, and a track that a search has
/// answered is announced with who queued it; the announcement is to be
/// deleted after [`ANNOUNCEMENT_LIFETIME`] seconds. Later reports change
/// and announce nothing.
pub fn act(queue: &mut Queue, play_time: u64, outcome: Option<SearchResult>) -> (card: Option<
    NowPlaying,
>)
    ensures
        final(queue)@ == after_report(old(queue)@, play_time, outcome.deep_view()),
        match card {
            Some(c) => {
                &&& play_time == 0
                &&& final(queue)@.current() matches Some(t)
                &&& t.slot() matches Some(m)
                &&& c.announces(m, t.added_by)
            },
            None => {
                ||| play_time != 0
                ||| final(queue)@.current() is None
                ||| final(queue)@.current()->0.slot() is None
            },
        },
{
    if play_time != 0 || queue.is_empty() {
        return None;
    }
    queue.resolve_at(0, outcome);
    match queue.current() {
        Some(track) => match track.read_lazy_metadata() {
            Some(metadata) => Some(create_now_playing_embed(metadata, track.read_added_by())),
            None => None,
        },
        None => None,
    }
}

} // verus!
