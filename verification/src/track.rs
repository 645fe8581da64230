//! Track references and the resolution of deferred ones.
//!
//! A track is queued either with its metadata or with a text query alone.
//! A query is resolved later by a search that the caller runs; this module
//! decides when a search is wanted and what its outcome does to the track.

use crate::metadata::{MiniMetadata, MiniMetadataView, MiniUser, MiniUserView};
use crate::text::push_str;
use vstd::prelude::*;

verus! {

/// What a search for a query brought back; each part may be missing.
#[derive(Debug)]
pub struct SearchResult {
    pub title: Option<String>,
    pub video_id: Option<String>,
    /// Playing time in whole seconds.
    pub duration: Option<u64>,
}

/// The mathematical value of a [`SearchResult`].
pub struct SearchResultView {
    pub title: Option<Seq<char>>,
    pub video_id: Option<Seq<char>>,
    pub duration: Option<u64>,
}

impl View for SearchResult {
    type V = SearchResultView;

    open spec fn view(&self) -> SearchResultView {
        SearchResultView {
            title: self.title.deep_view(),
            video_id: self.video_id.deep_view(),
            duration: self.duration,
        }
    }
}

impl DeepView for SearchResult {
    type V = SearchResultView;

    open spec fn deep_view(&self) -> SearchResultView {
        self@
    }
}

impl SearchResultView {
    /// Whether the search found anything: a title, an id or a playing
    /// time.
    pub open spec fn found_something(self) -> bool {
        self.title is Some || self.video_id is Some || self.duration is Some
    }
}

/// Whether a resolution attempt with `outcome` was answered: the search
/// did not fail, and it found something.
pub open spec fn answered(outcome: Option<SearchResultView>) -> bool {
    outcome matches Some(found) && found.found_something()
}

impl SearchResult {
    /// Whether the search found anything.
    pub fn found_something(&self) -> (any: bool)
        ensures
            any == self@.found_something(),
    {
        self.title.is_some() || self.video_id.is_some() || self.duration.is_some()
    }
}

/// The locator under which the video `id` is played.
pub open spec fn video_url(id: Seq<char>) -> Seq<char> {
    "https://youtu.be/"@ + id
}

/// The metadata that a search result gives: its title and playing time, or
/// empty values in their place, and the locator of its video.
pub open spec fn found_metadata(found: SearchResultView) -> MiniMetadataView {
    MiniMetadataView {
        title: match found.title {
            Some(t) => t,
            None => Seq::empty(),
        },
        duration: match found.duration {
            Some(d) => d,
            None => 0,
        },
        source_url: match found.video_id {
            Some(id) => video_url(id),
            None => Seq::empty(),
        },
    }
}

/// How a track is known to the queue.
#[derive(Debug)]
pub enum TrackReference {
    /// The metadata was complete when the track was queued.
    Eager { metadata: MiniMetadata },
    /// Only a query is known; `slot` is filled once a search has answered.
    Lazy { query: String, slot: Option<MiniMetadata> },
}

/// The mathematical value of a [`TrackReference`].
pub enum TrackReferenceView {
    Eager { metadata: MiniMetadataView },
    Lazy { query: Seq<char>, slot: Option<MiniMetadataView> },
}

impl View for TrackReference {
    type V = TrackReferenceView;

    open spec fn view(&self) -> TrackReferenceView {
        match self {
            TrackReference::Eager { metadata } => TrackReferenceView::Eager { metadata: metadata@ },
            TrackReference::Lazy { query, slot } => TrackReferenceView::Lazy {
                query: query@,
                slot: slot.deep_view(),
            },
        }
    }
}

/// A queue entry: the track and the member who queued it.
#[derive(Debug)]
pub struct Track {
    pub reference: TrackReference,
    pub added_by: Option<MiniUser>,
}

/// The mathematical value of a [`Track`].
pub struct TrackView {
    pub reference: TrackReferenceView,
    pub added_by: Option<MiniUserView>,
}

impl View for Track {
    type V = TrackView;

    open spec fn view(&self) -> TrackView {
        TrackView { reference: self.reference@, added_by: self.added_by.deep_view() }
    }
}

impl DeepView for Track {
    type V = TrackView;

    open spec fn deep_view(&self) -> TrackView {
        self@
    }
}

impl TrackView {
    /// Whether the track was queued by a query.
    pub open spec fn is_lazy(self) -> bool {
        self.reference is Lazy
    }

    /// The metadata that a search has filled in, if any.
    pub open spec fn slot(self) -> Option<MiniMetadataView> {
        match self.reference {
            TrackReferenceView::Eager { .. } => None,
            TrackReferenceView::Lazy { slot, .. } => slot,
        }
    }

    /// Whether a search is still wanted: the track is lazy and its slot is
    /// empty.
    pub open spec fn unresolved(self) -> bool {
        self.is_lazy() && self.slot() is None
    }

    /// The query to search for, where a search is wanted.
    pub open spec fn pending_query(self) -> Option<Seq<char>> {
        match self.reference {
            TrackReferenceView::Lazy { query, slot: None } => Some(query),
            _ => None,
        }
    }

    /// The track with `metadata` in its slot. An eager track has no slot
    /// and stays as it is.
    pub open spec fn with_slot(self, metadata: MiniMetadataView) -> TrackView {
        match self.reference {
            TrackReferenceView::Eager { .. } => self,
            TrackReferenceView::Lazy { query, .. } => TrackView {
                reference: TrackReferenceView::Lazy { query, slot: Some(metadata) },
                added_by: self.added_by,
            },
        }
    }

    /// The track after one resolution attempt with the given outcome
    /// (`None`: the search failed). Only an unresolved track and a search
    /// that found something change anything: a search that failed or found
    /// nothing leaves the slot empty, and the track is searched for again.
    pub open spec fn resolved_with(self, outcome: Option<SearchResultView>) -> TrackView {
        match outcome {
            Some(found) if self.unresolved() && found.found_something() => self.with_slot(
                found_metadata(found),
            ),
            _ => self,
        }
    }

    /// What a view shows of the track: its own metadata, what a search
    /// filled in, or empty metadata while nothing is known.
    pub open spec fn summary(self) -> MiniMetadataView {
        match self.reference {
            TrackReferenceView::Eager { metadata } => metadata,
            TrackReferenceView::Lazy { slot: Some(metadata), .. } => metadata,
            TrackReferenceView::Lazy { slot: None, .. } => crate::metadata::empty_metadata(),
        }
    }
}

/// Reading and filling the resolution slot of a track.
pub trait LazyMetadataTrait {
    /// The mathematical value of the track.
    spec fn model(&self) -> TrackView;

    /// The metadata in the slot, if a search has filled it. Changes nothing.
    fn read_lazy_metadata(&self) -> (slot: Option<MiniMetadata>)
        ensures
            slot.deep_view() == self.model().slot(),
    ;

    /// Puts `metadata` into the slot, over what was there.
    fn write_lazy_metadata(&mut self, metadata: MiniMetadata)
        ensures
            final(self).model() == old(self).model().with_slot(metadata@),
    ;

    /// One resolution attempt: `outcome` is what the search for the track's
    /// query brought back, `None` if it failed. A track that is resolved
    /// already, or not lazy, stays as it is, and so does every track when
    /// the search failed or found nothing.
    fn generate_lazy_metadata(&mut self, outcome: Option<SearchResult>)
        ensures
            final(self).model() == old(self).model().resolved_with(outcome.deep_view()),
    ;

    /// Whether the track was queued by a query. Resolution does not change
    /// this.
    fn is_lazy(&self) -> (lazy: bool)
        ensures
            lazy == self.model().is_lazy(),
    ;
}

/// Reading and recording who queued a track.
pub trait AddedBy {
    /// The member on record.
    spec fn added_by_model(&self) -> Option<MiniUserView>;

    /// The member who queued the track, if recorded.
    fn read_added_by(&self) -> (user: Option<MiniUser>)
        ensures
            user.deep_view() == self.added_by_model(),
    ;

    /// Records `user` as the member who queued the track.
    fn write_added_by(&mut self, user: &MiniUser)
        ensures
            final(self).added_by_model() == Some(user@),
    ;
}

/// Builds the metadata that a search result gives.
pub fn metadata_from_search(found: SearchResult) -> (m: MiniMetadata)
    ensures
        m@ == found_metadata(found@),
{
    let title = match found.title {
        Some(t) => t,
        None => String::new(),
    };
    let duration = match found.duration {
        Some(d) => d,
        None => 0,
    };
    let mut source_url = String::new();
    match found.video_id {
        Some(id) => {
            push_str(&mut source_url, "https://youtu.be/");
            push_str(&mut source_url, id.as_str());
        },
        None => {},
    }
    MiniMetadata { title, duration, source_url }
}

impl Track {
    /// A track with complete metadata.
    pub fn eager(metadata: MiniMetadata) -> (t: Track)
        ensures
            t@ == (TrackView {
                reference: TrackReferenceView::Eager { metadata: metadata@ },
                added_by: None,
            }),
    {
        Track { reference: TrackReference::Eager { metadata }, added_by: None }
    }

    /// A track known by its query alone, not yet resolved.
    pub fn lazy(query: String) -> (t: Track)
        ensures
            t@ == (TrackView {
                reference: TrackReferenceView::Lazy { query: query@, slot: None },
                added_by: None,
            }),
            t@.unresolved(),
    {
        Track { reference: TrackReference::Lazy { query, slot: None }, added_by: None }
    }

    /// The query to hand to the search, where a search is wanted.
    pub fn pending_query(&self) -> (q: Option<&str>)
        ensures
            q.deep_view() == self@.pending_query(),
            q is Some <==> self@.unresolved(),
    {
        match &self.reference {
            TrackReference::Lazy { query, slot: None } => Some(query.as_str()),
            _ => None,
        }
    }

    /// What a view shows of the track.
    pub fn summary(&self) -> (m: MiniMetadata)
        ensures
            m@ == self@.summary(),
    {
        match &self.reference {
            TrackReference::Eager { metadata } => metadata.clone(),
            TrackReference::Lazy { slot: Some(metadata), .. } => metadata.clone(),
            TrackReference::Lazy { slot: None, .. } => MiniMetadata::empty(),
        }
    }
}

impl LazyMetadataTrait for Track {
    open spec fn model(&self) -> TrackView {
        self@
    }

    fn read_lazy_metadata(&self) -> (slot: Option<MiniMetadata>) {
        match &self.reference {
            TrackReference::Lazy { slot: Some(metadata), .. } => Some(metadata.clone()),
            _ => None,
        }
    }

    fn write_lazy_metadata(&mut self, metadata: MiniMetadata) {
        match &mut self.reference {
            TrackReference::Lazy { slot, .. } => {
                *slot = Some(metadata);
            },
            TrackReference::Eager { .. } => {},
        }
    }

    fn generate_lazy_metadata(&mut self, outcome: Option<SearchResult>) {
        if self.pending_query().is_some() {
            match outcome {
                Some(found) => {
                    if found.found_something() {
                        self.write_lazy_metadata(metadata_from_search(found));
                    }
                },
                None => {},
            }
        }
    }

    fn is_lazy(&self) -> (lazy: bool) {
        match &self.reference {
            TrackReference::Lazy { .. } => true,
            TrackReference::Eager { .. } => false,
        }
    }
}

impl AddedBy for Track {
    open spec fn added_by_model(&self) -> Option<MiniUserView> {
        self@.added_by
    }

    fn read_added_by(&self) -> (user: Option<MiniUser>) {
        match &self.added_by {
            Some(u) => Some(u.clone()),
            None => None,
        }
    }

    fn write_added_by(&mut self, user: &MiniUser)
        ensures
            final(self)@.reference == old(self)@.reference,
    {
        self.added_by = Some(user.clone());
    }
}

/// Resolving a track that is resolved already changes nothing, whatever
/// the search brings back.
pub proof fn lemma_resolved_stays(t: TrackView, outcome: Option<SearchResultView>)
    requires
        !t.unresolved(),
    ensures
        t.resolved_with(outcome) == t,
{
}

/// Two resolution attempts in a row that get the same outcome leave the
/// track as one attempt does; once an attempt has been answered, no later
/// attempt changes the track; and no attempt changes whether the track is
/// lazy.
pub proof fn lemma_resolve_idempotent(
    t: TrackView,
    outcome: Option<SearchResultView>,
    later: Option<SearchResultView>,
)
    ensures
        t.resolved_with(outcome).resolved_with(outcome) == t.resolved_with(outcome),
        answered(outcome) ==> t.resolved_with(outcome).resolved_with(later) == t.resolved_with(
            outcome,
        ),
        t.resolved_with(outcome).is_lazy() == t.is_lazy(),
{
}

/// An attempt that is not answered, because the search failed or found
/// nothing, leaves the track as if no attempt had been made; an attempt
/// that is answered leaves no track unresolved.
pub proof fn lemma_failed_attempt_leaves_no_trace(t: TrackView, outcome: Option<SearchResultView>)
    ensures
        !answered(outcome) ==> t.resolved_with(outcome) == t,
        answered(outcome) ==> !t.resolved_with(outcome).unresolved(),
        t.unresolved() && answered(outcome) ==> t.resolved_with(outcome).slot() == Some(
            found_metadata(outcome->0),
        ),
{
}

} // verus!
