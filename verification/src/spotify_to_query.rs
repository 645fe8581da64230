//! From the tracks of the music site to the queries they are searched by.

use crate::text::push_str;
use vstd::prelude::*;

verus! {

/// Title and artists of a track.
#[derive(Debug)]
pub struct TrackData {
    pub title: String,
    pub artists: Vec<String>,
}

/// The mathematical value of a [`TrackData`].
pub struct TrackDataView {
    pub title: Seq<char>,
    pub artists: Seq<Seq<char>>,
}

impl View for TrackData {
    type V = TrackDataView;

    open spec fn view(&self) -> TrackDataView {
        TrackDataView { title: self.title@, artists: self.artists.deep_view() }
    }
}

impl DeepView for TrackData {
    type V = TrackDataView;

    open spec fn deep_view(&self) -> TrackDataView {
        self@
    }
}

/// The texts `items` in their order with `separator` between each two.
pub open spec fn joined(items: Seq<Seq<char>>, separator: Seq<char>) -> Seq<char>
    decreases items.len(),
{
    if items.len() == 0 {
        Seq::empty()
    } else if items.len() == 1 {
        items[0]
    } else {
        joined(items.drop_last(), separator) + separator + items.last()
    }
}

/// The query that finds a track: `title by artist, artist, ...`.
pub open spec fn spec_search_query(track: TrackDataView) -> Seq<char> {
    track.title + " by "@ + joined(track.artists, ", "@)
}

/// Writes `items` in their order with `separator` between each two.
pub fn join(items: &Vec<String>, separator: &str) -> (text: String)
    ensures
        text@ == joined(items.deep_view(), separator@),
{
    let mut text = String::new();
    let mut i: usize = 0;
    while i < items.len()
        invariant
            i <= items@.len(),
            text@ == joined(items.deep_view().take(i as int), separator@),
        decreases items@.len() - i,
    {
        let ghost done = items.deep_view().take(i as int);
        let ghost next = items.deep_view().take(i + 1);
        proof {
            assert(next.drop_last() =~= done);
            assert(next.last() == items@[i as int]@);
        }
        if i > 0 {
            push_str(&mut text, separator);
        }
        push_str(&mut text, items[i].as_str());
        proof {
            if i == 0 {
                assert(text@ =~= items@[0]@);
            }
        }
        i += 1;
    }
    proof {
        assert(items.deep_view().take(items@.len() as int) =~= items.deep_view());
    }
    text
}

impl TrackData {
    /// A track by its title and artists.
    pub fn new(title: String, artists: Vec<String>) -> (track: TrackData)
        ensures
            track@ == (TrackDataView { title: title@, artists: artists.deep_view() }),
    {
        TrackData { title, artists }
    }

    /// The query that finds this track.
    pub fn search_query(&self) -> (query: String)
        ensures
            query@ == spec_search_query(self@),
    {
        let mut query = String::new();
        push_str(&mut query, self.title.as_str());
        push_str(&mut query, " by ");
        let artists = join(&self.artists, ", ");
        push_str(&mut query, artists.as_str());
        query
    }
}

/// The entries of `items` that are tracks, in their order.
pub open spec fn tracks_among(items: Seq<Option<TrackDataView>>) -> Seq<TrackDataView>
    decreases items.len(),
{
    if items.len() == 0 {
        Seq::empty()
    } else {
        let before = tracks_among(items.drop_last());
        match items.last() {
            Some(track) => before.push(track),
            None => before,
        }
    }
}

/// Keeps the entries of a playlist that are tracks (`None` stands for an
/// entry of another kind), in their order.
pub fn extract_playlist_queries(items: Vec<Option<TrackData>>) -> (tracks: Vec<TrackData>)
    ensures
        tracks.deep_view() == tracks_among(items.deep_view()),
{
    let mut tracks: Vec<TrackData> = Vec::new();
    let ghost all = items.deep_view();
    let ghost whole = items@;
    proof {
        assert(tracks.deep_view() =~= Seq::empty());
    }
    for item in it: items
        invariant
            it.seq() == whole,
            all == Seq::new(whole.len(), |i: int| whole[i].deep_view()),
            tracks.deep_view() == tracks_among(all.take(it.index())),
    {
        let ghost i = it.index();
        let ghost before = tracks.deep_view();
        proof {
            assert(all.take(i + 1).drop_last() =~= all.take(i));
            assert(all.take(i + 1).last() == item.deep_view());
        }
        match item {
            Some(track) => {
                tracks.push(track);
                proof {
                    assert(tracks.deep_view() =~= before.push(track@));
                }
            },
            None => {},
        }
    }
    proof {
        assert(all.take(all.len() as int) =~= all);
    }
    tracks
}

} // verus!
