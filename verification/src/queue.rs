//! The playback queue of one voice session.
//!
//! The head of the queue is the current track. Skipping drops it and
//! promotes the next one; the loop flag says what happens when the
//! current track ends by itself.

use crate::track::{LazyMetadataTrait, SearchResult, Track, TrackView};
use vstd::prelude::*;

verus! {

/// Whether the current track starts over when it ends.
#[derive(Debug, PartialEq, Eq, Structural, Clone, Copy)]
pub enum LoopState {
    Off,
    RepeatCurrent,
}

impl LoopState {
    /// The other one of the two states.
    pub open spec fn flipped(self) -> LoopState {
        match self {
            LoopState::Off => LoopState::RepeatCurrent,
            LoopState::RepeatCurrent => LoopState::Off,
        }
    }
}

/// What the player does next when the current track has ended.
#[derive(Debug, PartialEq, Eq, Structural, Clone, Copy)]
pub enum EndAction {
    /// Play the current track again from its start.
    Replay,
    /// Play the track that has become current.
    PlayNext,
    /// Nothing is left to play.
    Idle,
}

/// The mathematical value of a [`Queue`]: its tracks from the current one
/// on, and the loop flag.
pub struct QueueView {
    pub tracks: Seq<TrackView>,
    pub looping: LoopState,
}

impl QueueView {
    /// The current track: the head of the queue.
    pub open spec fn current(self) -> Option<TrackView> {
        if self.tracks.len() > 0 {
            Some(self.tracks[0])
        } else {
            None
        }
    }

    /// The queue without its current track; the loop flag stays. An empty
    /// queue stays as it is.
    pub open spec fn advanced(self) -> QueueView {
        if self.tracks.len() > 0 {
            QueueView { tracks: self.tracks.drop_first(), looping: self.looping }
        } else {
            self
        }
    }

    /// The queue with the loop flag flipped.
    pub open spec fn toggled(self) -> QueueView {
        QueueView { tracks: self.tracks, looping: self.looping.flipped() }
    }

    /// The queue without any track; the loop flag stays.
    pub open spec fn cleared(self) -> QueueView {
        QueueView { tracks: Seq::empty(), looping: self.looping }
    }

    /// What the player does when the current track has ended by itself.
    pub open spec fn end_action(self) -> EndAction {
        if self.tracks.len() > 0 && self.looping == LoopState::RepeatCurrent {
            EndAction::Replay
        } else if self.tracks.len() > 1 {
            EndAction::PlayNext
        } else {
            EndAction::Idle
        }
    }

    /// The queue after its current track has ended by itself: as it was
    /// where the track is repeated, advanced otherwise.
    pub open spec fn after_track_end(self) -> QueueView {
        if self.end_action() == EndAction::Replay {
            self
        } else {
            self.advanced()
        }
    }

    /// The empty queue with the loop flag off.
    pub open spec fn empty() -> QueueView {
        QueueView { tracks: Seq::empty(), looping: LoopState::Off }
    }
}

/// An ordered queue of tracks with its loop flag.
#[derive(Debug)]
pub struct Queue {
    tracks: Vec<Track>,
    looping: LoopState,
}

impl View for Queue {
    type V = QueueView;

    closed spec fn view(&self) -> QueueView {
        QueueView { tracks: self.tracks.deep_view(), looping: self.looping }
    }
}

impl Queue {
    /// A queue without tracks.
    pub fn new() -> (q: Queue)
        ensures
            q@ == QueueView::empty(),
    {
        let q = Queue { tracks: Vec::new(), looping: LoopState::Off };
        proof {
            assert(q.tracks.deep_view() =~= Seq::empty());
        }
        q
    }

    /// The number of tracks, the current one included.
    pub fn len(&self) -> (n: usize)
        ensures
            n == self@.tracks.len(),
    {
        self.tracks.len()
    }

    /// Whether nothing is queued.
    pub fn is_empty(&self) -> (e: bool)
        ensures
            e == (self@.tracks.len() == 0),
    {
        self.tracks.len() == 0
    }

    /// The loop flag.
    pub fn loop_state(&self) -> (l: LoopState)
        ensures
            l == self@.looping,
    {
        self.looping
    }

    /// The current track, if any.
    pub fn current(&self) -> (t: Option<&Track>)
        ensures
            t.deep_view() == self@.current(),
    {
        if self.tracks.len() > 0 {
            Some(&self.tracks[0])
        } else {
            None
        }
    }

    /// The track at `index`, counted from the current one.
    pub fn get(&self, index: usize) -> (t: Option<&Track>)
        ensures
            index < self@.tracks.len() ==> t.deep_view() == Some(self@.tracks[index as int]),
            index >= self@.tracks.len() ==> t is None,
    {
        if index < self.tracks.len() {
            Some(&self.tracks[index])
        } else {
            None
        }
    }

    /// Appends `track` at the end.
    pub fn enqueue(&mut self, track: Track)
        ensures
            final(self)@.tracks == old(self)@.tracks.push(track@),
            final(self)@.looping == old(self)@.looping,
    {
        self.tracks.push(track);
        proof {
            assert(self.tracks.deep_view() =~= old(self).tracks.deep_view().push(track@));
        }
    }

    /// Drops the current track and promotes the next one; the track that
    /// left is handed back. On an empty queue nothing happens.
    pub fn advance(&mut self) -> (left: Option<Track>)
        ensures
            final(self)@ == old(self)@.advanced(),
            left.deep_view() == old(self)@.current(),
    {
        if self.tracks.len() == 0 {
            return None;
        }
        let head = self.tracks.remove(0);
        proof {
            assert(self.tracks.deep_view() =~= old(self).tracks.deep_view().drop_first());
        }
        Some(head)
    }

    /// Empties the queue. The track that was current is handed back: its
    /// playback is the one to stop, before anything else is done.
    pub fn clear(&mut self) -> (stopped: Option<Track>)
        ensures
            final(self)@ == old(self)@.cleared(),
            stopped.deep_view() == old(self)@.current(),
    {
        let stopped = self.advance();
        self.tracks.clear();
        proof {
            assert(self.tracks.deep_view() =~= Seq::empty());
        }
        stopped
    }

    /// Flips the loop flag and returns the new flag. The tracks stay as
    /// they are.
    pub fn toggle_loop(&mut self) -> (now: LoopState)
        ensures
            final(self)@ == old(self)@.toggled(),
            now == final(self)@.looping,
    {
        self.looping = match self.looping {
            LoopState::Off => LoopState::RepeatCurrent,
            LoopState::RepeatCurrent => LoopState::Off,
        };
        self.looping
    }

    /// Records that the current track has ended by itself: with the loop
    /// flag set the queue stays as it is and the track is played again,
    /// otherwise the queue advances.
    pub fn track_ended(&mut self) -> (next: EndAction)
        ensures
            final(self)@ == old(self)@.after_track_end(),
            next == old(self)@.end_action(),
    {
        if self.tracks.len() > 0 {
            match self.looping {
                LoopState::RepeatCurrent => {
                    return EndAction::Replay;
                },
                LoopState::Off => {},
            }
        }
        let _ = self.advance();
        proof {
            assert(old(self)@.tracks.len() == old(self).tracks@.len());
            assert(self@.tracks.len() == self.tracks@.len());
        }
        if self.tracks.len() > 0 {
            EndAction::PlayNext
        } else {
            EndAction::Idle
        }
    }

    /// One resolution attempt on the track at `index` with the outcome of
    /// its search. The other tracks and the loop flag stay as they are, and
    /// so does the whole queue where it has no track at `index`.
    pub fn resolve_at(&mut self, index: usize, outcome: Option<SearchResult>)
        ensures
            final(self)@.tracks == (if index < old(self)@.tracks.len() {
                old(self)@.tracks.update(
                    index as int,
                    old(self)@.tracks[index as int].resolved_with(outcome.deep_view()),
                )
            } else {
                old(self)@.tracks
            }),
            final(self)@.looping == old(self)@.looping,
    {
        if index >= self.tracks.len() {
            return ;
        }
        let ghost before = self.tracks.deep_view();
        self.tracks[index].generate_lazy_metadata(outcome);
        proof {
            assert(self.tracks.deep_view() =~= before.update(
                index as int,
                before[index as int].resolved_with(outcome.deep_view()),
            ));
        }
    }
}

/// Skipping on an empty queue leaves it empty, with its loop flag, and
/// without a current track.
pub proof fn lemma_advance_empty(q: QueueView)
    requires
        q.tracks.len() == 0,
    ensures
        q.advanced() == q,
        q.advanced().current() is None,
{
}

/// Flipping the loop flag twice gives back the queue as it was.
pub proof fn lemma_toggle_twice(q: QueueView)
    ensures
        q.toggled().toggled() == q,
        q.toggled().looping != q.looping,
{
}

/// The loop flag never changes what is queued; it only decides whether the
/// queue advances when the current track ends by itself.
pub proof fn lemma_flag_leaves_tracks(q: QueueView)
    ensures
        q.toggled().tracks == q.tracks,
        q.advanced().looping == q.looping,
        q.looping == LoopState::RepeatCurrent && q.tracks.len() > 0 ==> q.after_track_end() == q,
        q.looping == LoopState::Off ==> q.after_track_end() == q.advanced(),
        q.toggled().advanced().tracks == q.advanced().tracks,
{
}

} // verus!
