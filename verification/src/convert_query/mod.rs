//! From what a member asks for to what is queued and streamed.

pub mod youtube_media;

use crate::error::LibError;
use crate::metadata::{lossy, Metadata, MetadataView, MiniMetadata};
use crate::spotify_to_query::{spec_search_query, TrackData, TrackDataView};
use crate::text::{chars_of, str_eq, string_of};
use crate::track::{Track, TrackReferenceView, TrackView};
use vstd::prelude::*;

verus! {

/// What a locator names.
#[derive(Debug)]
pub enum Media {
    YouTubeVideo(String),
    YouTubePlaylist(String),
    SpotifyTrack(String),
    SpotifyPlaylist(String),
    SpotifyAlbum(String),
    Search(String),
}

/// The mathematical value of a [`Media`].
pub enum MediaView {
    YouTubeVideo(Seq<char>),
    YouTubePlaylist(Seq<char>),
    SpotifyTrack(Seq<char>),
    SpotifyPlaylist(Seq<char>),
    SpotifyAlbum(Seq<char>),
    Search(Seq<char>),
}

impl View for Media {
    type V = MediaView;

    open spec fn view(&self) -> MediaView {
        match self {
            Media::YouTubeVideo(id) => MediaView::YouTubeVideo(id@),
            Media::YouTubePlaylist(id) => MediaView::YouTubePlaylist(id@),
            Media::SpotifyTrack(id) => MediaView::SpotifyTrack(id@),
            Media::SpotifyPlaylist(id) => MediaView::SpotifyPlaylist(id@),
            Media::SpotifyAlbum(id) => MediaView::SpotifyAlbum(id@),
            Media::Search(query) => MediaView::Search(query@),
        }
    }
}

impl Clone for Media {
    fn clone(&self) -> (copy: Media)
        ensures
            copy@ == self@,
    {
        match self {
            Media::YouTubeVideo(id) => Media::YouTubeVideo(id.clone()),
            Media::YouTubePlaylist(id) => Media::YouTubePlaylist(id.clone()),
            Media::SpotifyTrack(id) => Media::SpotifyTrack(id.clone()),
            Media::SpotifyPlaylist(id) => Media::SpotifyPlaylist(id.clone()),
            Media::SpotifyAlbum(id) => Media::SpotifyAlbum(id.clone()),
            Media::Search(query) => Media::Search(query.clone()),
        }
    }
}

/// The parts of a parsed locator that the classification reads.
#[derive(Debug)]
pub struct UrlParts {
    /// The host, where it is a domain name.
    pub domain: Option<String>,
    /// The path, percent-encoded.
    pub path: String,
    /// The pairs of the query string, decoded, in their order.
    pub query_pairs: Vec<(String, String)>,
    /// The segments of the path between its slashes, where the path starts
    /// with one.
    pub path_segments: Option<Vec<String>>,
}

/// The mathematical value of a [`UrlParts`].
pub struct UrlPartsView {
    pub domain: Option<Seq<char>>,
    pub path: Seq<char>,
    pub query_pairs: Seq<(Seq<char>, Seq<char>)>,
    pub path_segments: Option<Seq<Seq<char>>>,
}

impl View for UrlParts {
    type V = UrlPartsView;

    open spec fn view(&self) -> UrlPartsView {
        UrlPartsView {
            domain: self.domain.deep_view(),
            path: self.path@,
            query_pairs: self.query_pairs.deep_view(),
            path_segments: self.path_segments.deep_view(),
        }
    }
}

impl DeepView for UrlParts {
    type V = UrlPartsView;

    open spec fn deep_view(&self) -> UrlPartsView {
        self@
    }
}

/// The parts of the locator that `text` writes, as the `url` crate parses
/// it; `None` where it does not parse as an absolute locator.
pub uninterp spec fn url_parts(text: Seq<char>) -> Option<UrlPartsView>;

/// Parses `text` with `url::Url::parse` and reads the parts with
/// `Url::domain`, `Url::path`, `Url::query_pairs` and `Url::path_segments`.
/// The contract gives the result a name and claims no more than that it
/// depends on the text alone.
#[verifier::external_body]
fn split_url(text: &str) -> (parts: Option<UrlParts>)
    ensures
        parts.deep_view() == url_parts(text@),
{
    let url = url::Url::parse(text).ok()?;
    Some(UrlParts {
        domain: url.domain().map(|d| d.to_owned()),
        path: url.path().to_owned(),
        query_pairs: url.query_pairs().into_owned().collect(),
        path_segments: url.path_segments().map(|s| s.map(|p| p.to_owned()).collect()),
    })
}

/// The value of the first pair of `pairs` whose key is `key`.
pub open spec fn first_value(pairs: Seq<(Seq<char>, Seq<char>)>, key: Seq<char>) -> Option<
    Seq<char>,
>
    decreases pairs.len(),
{
    if pairs.len() == 0 {
        None
    } else if pairs[0].0 == key {
        Some(pairs[0].1)
    } else {
        first_value(pairs.drop_first(), key)
    }
}

/// What the locator `query` with the parts `parts` names, or what is wrong
/// with it.
///
/// - On the video site: the video of the parameter `v`, else the playlist
///   of the parameter `list`.
/// - On the short video site: the video that the path names.
/// - On the music site: the track, playlist or album that the first two
///   path segments name.
/// - On any other domain: a search for the locator itself.
/// - Without a domain: nothing.
pub open spec fn classify(query: Seq<char>, parts: UrlPartsView) -> Result<MediaView, Seq<char>> {
    match parts.domain {
        None => Err("Parsing Error"@),
        Some(domain) => if domain == "www.youtube.com"@ || domain == "youtube.com"@ {
            match first_value(parts.query_pairs, "v"@) {
                Some(id) => Ok(MediaView::YouTubeVideo(id)),
                None => match first_value(parts.query_pairs, "list"@) {
                    Some(id) => Ok(MediaView::YouTubePlaylist(id)),
                    None => Err("Incorrect Url Format"@),
                },
            }
        } else if domain == "www.youtu.be"@ || domain == "youtu.be"@ {
            if parts.path.len() > 0 && parts.path[0] == '/' {
                Ok(MediaView::YouTubeVideo(parts.path.skip(1)))
            } else {
                Err("Incorrect Url Format"@)
            }
        } else if domain == "open.spotify.com"@ || domain == "www.open.spotify.com"@ {
            match parts.path_segments {
                None => Err("Parsing Error"@),
                Some(segments) => if segments.len() >= 2 {
                    if segments[0] == "track"@ {
                        Ok(MediaView::SpotifyTrack(segments[1]))
                    } else if segments[0] == "playlist"@ {
                        Ok(MediaView::SpotifyPlaylist(segments[1]))
                    } else if segments[0] == "album"@ {
                        Ok(MediaView::SpotifyAlbum(segments[1]))
                    } else {
                        Err("Unknown Content Type"@)
                    }
                } else {
                    Err("Required Arguments Missing"@)
                },
            }
        } else {
            Ok(MediaView::Search(query))
        },
    }
}

/// The mathematical value of a classification result: the medium, or the
/// description of the locator fault.
pub open spec fn outcome(r: Result<Media, LibError>) -> Result<MediaView, Seq<char>> {
    match r {
        Ok(media) => Ok(media@),
        Err(e) => Err(e.detail()),
    }
}

/// Finds the value of the first pair whose key is `key`.
fn find_value(pairs: &Vec<(String, String)>, key: &str) -> (value: Option<String>)
    ensures
        value.deep_view() == first_value(pairs.deep_view(), key@),
{
    let mut i: usize = 0;
    proof {
        assert(pairs.deep_view().skip(0) =~= pairs.deep_view());
    }
    while i < pairs.len()
        invariant
            i <= pairs@.len(),
            first_value(pairs.deep_view(), key@) == first_value(
                pairs.deep_view().skip(i as int),
                key@,
            ),
        decreases pairs@.len() - i,
    {
        let ghost rest = pairs.deep_view().skip(i as int);
        proof {
            assert(rest[0] == pairs@[i as int].deep_view());
            assert(rest.drop_first() =~= pairs.deep_view().skip(i + 1));
        }
        if str_eq(pairs[i].0.as_str(), key) {
            return Some(pairs[i].1.clone());
        }
        i += 1;
    }
    proof {
        assert(pairs.deep_view().skip(i as int).len() == 0);
    }
    None
}

/// Classifies a locator by its parts: see [`classify`].
pub fn classify_url(query: &str, parts: &UrlParts) -> (r: Result<Media, LibError>)
    ensures
        outcome(r) == classify(query@, parts@),
        r matches Err(e) ==> e is UrlError,
{
    let domain = match &parts.domain {
        Some(d) => d.as_str(),
        None => {
            return Err(LibError::url_error("Parsing Error"));
        },
    };
    if str_eq(domain, "www.youtube.com") || str_eq(domain, "youtube.com") {
        match find_value(&parts.query_pairs, "v") {
            Some(id) => Ok(Media::YouTubeVideo(id)),
            None => match find_value(&parts.query_pairs, "list") {
                Some(id) => Ok(Media::YouTubePlaylist(id)),
                None => Err(LibError::url_error("Incorrect Url Format")),
            },
        }
    } else if str_eq(domain, "www.youtu.be") || str_eq(domain, "youtu.be") {
        let path = chars_of(parts.path.as_str());
        if path.len() > 0 && path[0] == '/' {
            let id = string_of(&path, 1, path.len());
            proof {
                assert(id@ =~= parts@.path.skip(1));
            }
            Ok(Media::YouTubeVideo(id))
        } else {
            Err(LibError::url_error("Incorrect Url Format"))
        }
    } else if str_eq(domain, "open.spotify.com") || str_eq(domain, "www.open.spotify.com") {
        match &parts.path_segments {
            None => Err(LibError::url_error("Parsing Error")),
            Some(segments) => {
                if segments.len() >= 2 {
                    let kind = segments[0].as_str();
                    if str_eq(kind, "track") {
                        Ok(Media::SpotifyTrack(segments[1].clone()))
                    } else if str_eq(kind, "playlist") {
                        Ok(Media::SpotifyPlaylist(segments[1].clone()))
                    } else if str_eq(kind, "album") {
                        Ok(Media::SpotifyAlbum(segments[1].clone()))
                    } else {
                        Err(LibError::url_error("Unknown Content Type"))
                    }
                } else {
                    Err(LibError::url_error("Required Arguments Missing"))
                }
            },
        }
    } else {
        Ok(Media::Search(query.to_owned()))
    }
}

/// What [`extract_media`] gives for a text whose parsing gave `parts`.
pub open spec fn spec_extract_media(query: Seq<char>, parts: Option<UrlPartsView>) -> Result<
    MediaView,
    Seq<char>,
> {
    match parts {
        None => Err("Invalid Url"@),
        Some(p) => classify(query, p),
    }
}

/// Tells what `query` names. A text that is no absolute locator is
/// refused, and so is a locator of a known site that names nothing there;
/// a locator of an unknown site stands for a search.
pub fn extract_media(query: &str) -> (r: Result<Media, LibError>)
    ensures
        outcome(r) == spec_extract_media(query@, url_parts(query@)),
        r matches Err(e) ==> e is UrlError,
{
    match split_url(query) {
        None => Err(LibError::url_error("Invalid Url")),
        Some(parts) => classify_url(query, &parts),
    }
}

/// A track before it is queued: with the metadata that a lookup brought,
/// or as a query that is searched for later.
#[derive(Debug)]
pub enum LazyQueued {
    Lazy(Metadata),
    LazySoundCloudQuery(String),
}

/// The mathematical value of a [`LazyQueued`].
pub enum LazyQueuedView {
    Lazy(MetadataView),
    LazySoundCloudQuery(Seq<char>),
}

impl View for LazyQueued {
    type V = LazyQueuedView;

    open spec fn view(&self) -> LazyQueuedView {
        match self {
            LazyQueued::Lazy(metadata) => LazyQueuedView::Lazy(metadata@),
            LazyQueued::LazySoundCloudQuery(query) => LazyQueuedView::LazySoundCloudQuery(query@),
        }
    }
}

impl LazyQueuedView {
    /// The metadata that the player is told before the track starts: what
    /// the lookup brought, or for a query two channels at 48000 samples a
    /// second and the query as the title.
    pub open spec fn init_metadata(self) -> MetadataView {
        match self {
            LazyQueuedView::Lazy(metadata) => metadata,
            LazyQueuedView::LazySoundCloudQuery(query) => MetadataView {
                title: Some(query),
                duration: None,
                source_url: None,
                channels: Some(2),
                sample_rate: Some(48000),
            },
        }
    }

    /// The queue entry that this makes: an eager one from metadata, with
    /// empty values for what is missing, a lazy one from a query.
    pub open spec fn track(self) -> TrackView {
        match self {
            LazyQueuedView::Lazy(metadata) => TrackView {
                reference: TrackReferenceView::Eager { metadata: lossy(metadata) },
                added_by: None,
            },
            LazyQueuedView::LazySoundCloudQuery(query) => TrackView {
                reference: TrackReferenceView::Lazy { query, slot: None },
                added_by: None,
            },
        }
    }
}

impl LazyQueued {
    /// A track with metadata. Metadata without a source locator is
    /// refused: there would be nothing to play.
    pub fn new_lazy(metadata: Metadata) -> (r: Result<LazyQueued, LibError>)
        ensures
            match r {
                Ok(q) => metadata@.source_url is Some && q@ == LazyQueuedView::Lazy(metadata@),
                Err(e) => metadata@.source_url is None && e is MissingValue && e.detail()
                    == "source_url"@,
            },
    {
        if metadata.source_url.is_none() {
            return Err(LibError::missing_value("source_url"));
        }
        Ok(LazyQueued::Lazy(metadata))
    }

    /// A track known by a query alone.
    pub fn new_lazy_soundcloud_query(query: String) -> (r: Result<LazyQueued, LibError>)
        ensures
            r matches Ok(q) && q@ == LazyQueuedView::LazySoundCloudQuery(query@),
    {
        Ok(LazyQueued::LazySoundCloudQuery(query))
    }

    /// The metadata that the player is told before the track starts.
    pub fn lazy_init(&self) -> (metadata: Metadata)
        ensures
            metadata@ == self@.init_metadata(),
    {
        match self {
            LazyQueued::Lazy(metadata) => metadata.clone(),
            LazyQueued::LazySoundCloudQuery(query) => Metadata {
                title: Some(query.clone()),
                duration: None,
                source_url: None,
                channels: Some(2),
                sample_rate: Some(48000),
            },
        }
    }

    /// The queue entry that this makes.
    pub fn into_track(self) -> (track: Track)
        ensures
            track@ == self@.track(),
    {
        match self {
            LazyQueued::Lazy(metadata) => Track::eager(MiniMetadata::lossy_from_metadata(metadata)),
            LazyQueued::LazySoundCloudQuery(query) => Track::lazy(query),
        }
    }
}

/// What the caller looks up next for a request.
#[derive(Debug)]
pub enum Lookup {
    /// The metadata of one video, by its id.
    Video(String),
    /// The metadata of the videos of a playlist, by its id.
    Playlist(String),
    /// Title and artists of one track of the music site, by its id.
    SpotifyTrack(String),
    /// Title and artists of the tracks of a playlist of the music site.
    SpotifyPlaylist(String),
    /// The first hit of a search for a text.
    Search(String),
}

/// The mathematical value of a [`Lookup`].
pub enum LookupView {
    Video(Seq<char>),
    Playlist(Seq<char>),
    SpotifyTrack(Seq<char>),
    SpotifyPlaylist(Seq<char>),
    Search(Seq<char>),
}

impl View for Lookup {
    type V = LookupView;

    open spec fn view(&self) -> LookupView {
        match self {
            Lookup::Video(id) => LookupView::Video(id@),
            Lookup::Playlist(id) => LookupView::Playlist(id@),
            Lookup::SpotifyTrack(id) => LookupView::SpotifyTrack(id@),
            Lookup::SpotifyPlaylist(id) => LookupView::SpotifyPlaylist(id@),
            Lookup::Search(query) => LookupView::Search(query@),
        }
    }
}

/// The lookup that a medium asks for first. An album of the music site is
/// looked up as a playlist is.
pub open spec fn first_lookup(media: MediaView) -> LookupView {
    match media {
        MediaView::YouTubeVideo(id) => LookupView::Video(id),
        MediaView::YouTubePlaylist(id) => LookupView::Playlist(id),
        MediaView::SpotifyTrack(id) => LookupView::SpotifyTrack(id),
        MediaView::SpotifyPlaylist(id) => LookupView::SpotifyPlaylist(id),
        MediaView::SpotifyAlbum(id) => LookupView::SpotifyPlaylist(id),
        MediaView::Search(query) => LookupView::Search(query),
    }
}

/// What a lookup brought.
#[derive(Debug)]
pub enum Fetched {
    /// The metadata of videos, in the order of their playlist.
    Videos(Vec<Metadata>),
    /// Tracks of the music site, in the order of their playlist.
    SpotifyTracks(Vec<TrackData>),
    /// The metadata of the first hit of a search.
    Hit(Metadata),
}

/// The mathematical value of a [`Fetched`].
pub enum FetchedView {
    Videos(Seq<MetadataView>),
    SpotifyTracks(Seq<TrackDataView>),
    Hit(MetadataView),
}

impl View for Fetched {
    type V = FetchedView;

    open spec fn view(&self) -> FetchedView {
        match self {
            Fetched::Videos(list) => FetchedView::Videos(list.deep_view()),
            Fetched::SpotifyTracks(list) => FetchedView::SpotifyTracks(list.deep_view()),
            Fetched::Hit(metadata) => FetchedView::Hit(metadata@),
        }
    }
}

/// How far a request has come.
#[derive(Debug)]
pub enum Conversion {
    /// One more lookup is needed.
    Next(Lookup),
    /// These are the tracks to queue.
    Tracks(Vec<Track>),
}

/// The mathematical value of a step of a request: the next lookup, the
/// tracks to queue, or the name of what the lookup should have brought.
pub enum ConversionView {
    Next(LookupView),
    Tracks(Seq<TrackView>),
    Missing(Seq<char>),
}

/// The eager track of some metadata.
pub open spec fn eager_track(metadata: MetadataView) -> TrackView {
    LazyQueuedView::Lazy(metadata).track()
}

/// The lazy track of a track of the music site.
pub open spec fn lazy_track(data: TrackDataView) -> TrackView {
    LazyQueuedView::LazySoundCloudQuery(spec_search_query(data)).track()
}

/// What follows when `lookup` has brought `fetched`.
///
/// - Videos, for a video or a playlist: an eager track of each.
/// - Tracks of the music site, for a playlist: a lazy track of each.
/// - Tracks of the music site, for one track: a search for the query of
///   the first one; `track` is missing where there is none.
/// - A hit, for a search: its eager track.
/// - Anything else is not what the lookup should have brought: `videos`,
///   `tracks` or `hit` is missing.
pub open spec fn spec_continue_query(lookup: LookupView, fetched: FetchedView) -> ConversionView {
    match lookup {
        LookupView::Video(_) | LookupView::Playlist(_) => match fetched {
            FetchedView::Videos(list) => ConversionView::Tracks(
                Seq::new(list.len(), |i: int| eager_track(list[i])),
            ),
            _ => ConversionView::Missing("videos"@),
        },
        LookupView::SpotifyPlaylist(_) => match fetched {
            FetchedView::SpotifyTracks(list) => ConversionView::Tracks(
                Seq::new(list.len(), |i: int| lazy_track(list[i])),
            ),
            _ => ConversionView::Missing("tracks"@),
        },
        LookupView::SpotifyTrack(_) => match fetched {
            FetchedView::SpotifyTracks(list) => if list.len() > 0 {
                ConversionView::Next(LookupView::Search(spec_search_query(list[0])))
            } else {
                ConversionView::Missing("track"@)
            },
            _ => ConversionView::Missing("tracks"@),
        },
        LookupView::Search(_) => match fetched {
            FetchedView::Hit(metadata) => ConversionView::Tracks(seq![eager_track(metadata)]),
            _ => ConversionView::Missing("hit"@),
        },
    }
}

/// The mathematical value of a result of [`continue_query`].
pub open spec fn conversion_view(r: Result<Conversion, LibError>) -> ConversionView {
    match r {
        Ok(Conversion::Next(lookup)) => ConversionView::Next(lookup@),
        Ok(Conversion::Tracks(tracks)) => ConversionView::Tracks(tracks.deep_view()),
        Err(e) => ConversionView::Missing(e.detail()),
    }
}

/// The mathematical value of a result of [`convert_query`].
pub open spec fn lookup_outcome(r: Result<Lookup, LibError>) -> Result<LookupView, Seq<char>> {
    match r {
        Ok(lookup) => Ok(lookup@),
        Err(e) => Err(e.detail()),
    }
}

/// Says what to look up first for a medium.
pub fn lookup_for(media: Media) -> (lookup: Lookup)
    ensures
        lookup@ == first_lookup(media@),
{
    match media {
        Media::YouTubeVideo(id) => Lookup::Video(id),
        Media::YouTubePlaylist(id) => Lookup::Playlist(id),
        Media::SpotifyTrack(id) => Lookup::SpotifyTrack(id),
        Media::SpotifyPlaylist(id) => Lookup::SpotifyPlaylist(id),
        Media::SpotifyAlbum(id) => Lookup::SpotifyPlaylist(id),
        Media::Search(query) => Lookup::Search(query),
    }
}

/// Starts a request: tells what `query` names and what to look up for it.
/// A text that names nothing is refused: see [`extract_media`].
pub fn convert_query(query: &str) -> (r: Result<Lookup, LibError>)
    ensures
        lookup_outcome(r) == (match spec_extract_media(query@, url_parts(query@)) {
            Ok(media) => Ok::<LookupView, Seq<char>>(first_lookup(media)),
            Err(fault) => Err::<LookupView, Seq<char>>(fault),
        }),
        r matches Err(e) ==> e is UrlError,
{
    match extract_media(query) {
        Ok(media) => Ok(lookup_for(media)),
        Err(e) => Err(e),
    }
}

/// Goes on with a request after `lookup` has brought `fetched`: see
/// [`spec_continue_query`].
pub fn continue_query(lookup: &Lookup, fetched: Fetched) -> (r: Result<Conversion, LibError>)
    ensures
        conversion_view(r) == spec_continue_query(lookup@, fetched@),
        r matches Err(e) ==> e is MissingValue,
{
    match lookup {
        Lookup::Video(_) | Lookup::Playlist(_) => match fetched {
            Fetched::Videos(list) => {
                let ghost all = list.deep_view();
                let ghost whole = list@;
                let mut tracks: Vec<Track> = Vec::new();
                proof {
                    assert(tracks.deep_view() =~= Seq::<TrackView>::empty());
                }
                for metadata in it: list
                    invariant
                        it.seq() == whole,
                        all == Seq::new(whole.len(), |i: int| whole[i]@),
                        tracks.deep_view() == Seq::new(
                            it.index() as nat,
                            |i: int| eager_track(all[i]),
                        ),
                {
                    let ghost before = tracks.deep_view();
                    let track = LazyQueued::Lazy(metadata).into_track();
                    tracks.push(track);
                    proof {
                        assert(tracks.deep_view() =~= before.push(track@));
                        assert(tracks.deep_view() =~= Seq::new(
                            (it.index() + 1) as nat,
                            |i: int| eager_track(all[i]),
                        ));
                    }
                }
                proof {
                    assert(tracks.deep_view() =~= Seq::new(
                        all.len(),
                        |i: int| eager_track(all[i]),
                    ));
                }
                Ok(Conversion::Tracks(tracks))
            },
            _ => Err(LibError::missing_value("videos")),
        },
        Lookup::SpotifyPlaylist(_) => match fetched {
            Fetched::SpotifyTracks(list) => {
                let ghost all = list.deep_view();
                let mut tracks: Vec<Track> = Vec::new();
                let mut i: usize = 0;
                proof {
                    assert(tracks.deep_view() =~= Seq::<TrackView>::empty());
                }
                while i < list.len()
                    invariant
                        i <= list@.len(),
                        all == list.deep_view(),
                        tracks.deep_view() == Seq::new(i as nat, |k: int| lazy_track(all[k])),
                    decreases list@.len() - i,
                {
                    let ghost before = tracks.deep_view();
                    let track = Track::lazy(list[i].search_query());
                    tracks.push(track);
                    proof {
                        assert(all[i as int] == list@[i as int]@);
                        assert(tracks.deep_view() =~= before.push(track@));
                        assert(tracks.deep_view() =~= Seq::new(
                            (i + 1) as nat,
                            |k: int| lazy_track(all[k]),
                        ));
                    }
                    i += 1;
                }
                Ok(Conversion::Tracks(tracks))
            },
            _ => Err(LibError::missing_value("tracks")),
        },
        Lookup::SpotifyTrack(_) => match fetched {
            Fetched::SpotifyTracks(list) => {
                if list.len() > 0 {
                    proof {
                        assert(list.deep_view()[0] == list@[0]@);
                    }
                    Ok(Conversion::Next(Lookup::Search(list[0].search_query())))
                } else {
                    Err(LibError::missing_value("track"))
                }
            },
            _ => Err(LibError::missing_value("tracks")),
        },
        Lookup::Search(_) => match fetched {
            Fetched::Hit(metadata) => {
                let track = LazyQueued::Lazy(metadata).into_track();
                let mut tracks: Vec<Track> = Vec::new();
                tracks.push(track);
                proof {
                    assert(tracks.deep_view() =~= seq![track@]);
                }
                Ok(Conversion::Tracks(tracks))
            },
            _ => Err(LibError::missing_value("hit")),
        },
    }
}

} // verus!
