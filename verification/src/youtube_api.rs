//! From the answers of the video service to track metadata.

use crate::error::{Error, ErrorView};
use crate::metadata::{Metadata, MetadataView};
use crate::spotify_to_query::{join, joined};
use crate::text::push_str;
use vstd::prelude::*;

verus! {

/// A duration as the notation of ISO 8601 writes it.
#[derive(Debug, PartialEq, Eq, Structural, Clone, Copy)]
pub enum IsoDuration {
    /// Years, months, days, hours, minutes, seconds and milliseconds.
    YMDHMS { year: u32, month: u32, day: u32, hour: u32, minute: u32, second: u32, millisecond: u32 },
    /// Whole weeks.
    Weeks(u32),
}

impl IsoDuration {
    /// The whole seconds of the duration, a year taken as 365 days and a
    /// month as 30 days.
    pub open spec fn spec_as_secs(self) -> nat {
        match self {
            IsoDuration::YMDHMS { year, month, day, hour, minute, second, millisecond } => (year
                * 365 * 86_400 + month * 30 * 86_400 + day * 86_400 + hour * 3600 + minute * 60
                + second) as nat,
            IsoDuration::Weeks(week) => (week * 7 * 86_400) as nat,
        }
    }

    /// The whole seconds of the duration.
    pub fn as_secs(&self) -> (secs: u64)
        ensures
            secs == self.spec_as_secs(),
    {
        match *self {
            IsoDuration::YMDHMS { year, month, day, hour, minute, second, millisecond } => {
                (year as u64) * 365 * 86_400 + (month as u64) * 30 * 86_400 + (day as u64) * 86_400
                    + (hour as u64) * 3600 + (minute as u64) * 60 + (second as u64)
            },
            IsoDuration::Weeks(week) => (week as u64) * 7 * 86_400,
        }
    }
}

/// The duration that `text` writes in the notation of ISO 8601, as the
/// `iso8601` crate reads it; `None` where it reads none.
pub uninterp spec fn iso_duration(text: Seq<char>) -> Option<IsoDuration>;

/// Reads a duration with `iso8601::Duration::from_str`. The contract gives
/// the result a name and claims no more than that it depends on the text
/// alone.
#[verifier::external_body]
fn parse_iso_duration(text: &str) -> (d: Option<IsoDuration>)
    ensures
        d == iso_duration(text@),
{
    match <iso8601::Duration as std::str::FromStr>::from_str(text) {
        Ok(iso8601::Duration::YMDHMS { year, month, day, hour, minute, second, millisecond }) => {
            Some(IsoDuration::YMDHMS { year, month, day, hour, minute, second, millisecond })
        },
        Ok(iso8601::Duration::Weeks(week)) => Some(IsoDuration::Weeks(week)),
        Err(_) => None,
    }
}

/// The part of a video record that holds its playing time.
#[derive(Debug)]
pub struct VideoContentDetails {
    /// The playing time in the notation of ISO 8601.
    pub duration: Option<String>,
}

/// The part of a video record that holds its title.
#[derive(Debug)]
pub struct VideoSnippet {
    pub title: Option<String>,
}

/// A video record of the video service, as far as it is read here.
#[derive(Debug)]
pub struct Video {
    pub id: Option<String>,
    pub content_details: Option<VideoContentDetails>,
    pub snippet: Option<VideoSnippet>,
}

/// The mathematical value of a [`Video`]: the outer `Option` of
/// `duration` and of `title` tells whether the part that holds them is
/// there.
pub struct VideoView {
    pub id: Option<Seq<char>>,
    pub duration: Option<Option<Seq<char>>>,
    pub title: Option<Option<Seq<char>>>,
}

impl View for Video {
    type V = VideoView;

    open spec fn view(&self) -> VideoView {
        VideoView {
            id: self.id.deep_view(),
            duration: match self.content_details {
                Some(details) => Some(details.duration.deep_view()),
                None => None,
            },
            title: match self.snippet {
                Some(snippet) => Some(snippet.title.deep_view()),
                None => None,
            },
        }
    }
}

impl DeepView for Video {
    type V = VideoView;

    open spec fn deep_view(&self) -> VideoView {
        self@
    }
}

/// The text of the failure to read the duration `text`.
pub open spec fn duration_fault(text: Seq<char>) -> Seq<char> {
    "Failed to parse duration: "@ + text
}

/// The metadata of a video whose duration text reads as `parsed`, or the
/// first thing that is wrong with the record: a missing `contentDetails`,
/// `snippet`, `duration`, a duration that does not read, a missing `id` or
/// `title`, in this order.
pub open spec fn spec_extract_metadata(video: VideoView, parsed: Option<IsoDuration>) -> Result<
    MetadataView,
    ErrorView,
> {
    if video.duration is None {
        Err(ErrorView::MissingValue("contentDetails"@))
    } else if video.title is None {
        Err(ErrorView::MissingValue("snippet"@))
    } else if video.duration->0 is None {
        Err(ErrorView::MissingValue("duration"@))
    } else if parsed is None {
        Err(ErrorView::General(duration_fault(video.duration->0->0)))
    } else if video.id is None {
        Err(ErrorView::MissingValue("id"@))
    } else if video.title->0 is None {
        Err(ErrorView::MissingValue("title"@))
    } else {
        Ok(
            MetadataView {
                title: video.title->0,
                duration: Some(parsed->0.spec_as_secs() as u64),
                source_url: Some(crate::track::video_url(video.id->0)),
                channels: Some(2),
                sample_rate: Some(48000),
            },
        )
    }
}

/// The mathematical value of a result of this module.
pub open spec fn outcome(r: Result<Metadata, Error>) -> Result<MetadataView, ErrorView> {
    match r {
        Ok(m) => Ok(m@),
        Err(e) => Err(e@),
    }
}

/// The duration that the record's duration text reads as, where it has
/// one.
pub open spec fn parsed_duration(video: VideoView) -> Option<IsoDuration> {
    match video.duration {
        Some(Some(text)) => iso_duration(text),
        _ => None,
    }
}

/// Builds the metadata of a video from its record and from what its
/// duration text was read as: see [`spec_extract_metadata`]. `parsed` is
/// looked at only where the record holds a duration text.
pub fn metadata_of(video: &Video, parsed: Option<IsoDuration>) -> (r: Result<Metadata, Error>)
    ensures
        outcome(r) == spec_extract_metadata(video@, parsed),
{
    let details = match &video.content_details {
        Some(details) => details,
        None => {
            return Err(Error::missing_value("contentDetails"));
        },
    };
    let snippet = match &video.snippet {
        Some(snippet) => snippet,
        None => {
            return Err(Error::missing_value("snippet"));
        },
    };
    let text = match &details.duration {
        Some(text) => text,
        None => {
            return Err(Error::missing_value("duration"));
        },
    };
    let duration = match parsed {
        Some(d) => d.as_secs(),
        None => {
            let mut fault = String::new();
            push_str(&mut fault, "Failed to parse duration: ");
            push_str(&mut fault, text.as_str());
            return Err(Error::general(fault));
        },
    };
    let id = match &video.id {
        Some(id) => id,
        None => {
            return Err(Error::missing_value("id"));
        },
    };
    let title = match &snippet.title {
        Some(title) => title.clone(),
        None => {
            return Err(Error::missing_value("title"));
        },
    };
    let mut source_url = String::new();
    push_str(&mut source_url, "https://youtu.be/");
    push_str(&mut source_url, id.as_str());
    Ok(
        Metadata {
            title: Some(title),
            duration: Some(duration),
            source_url: Some(source_url),
            channels: Some(2),
            sample_rate: Some(48000),
        },
    )
}

/// Builds the metadata of a video from its record: see
/// [`spec_extract_metadata`], with the duration text read by the
/// `iso8601` crate.
pub fn extract_metadata(video: &Video) -> (r: Result<Metadata, Error>)
    ensures
        outcome(r) == spec_extract_metadata(video@, parsed_duration(video@)),
{
    let parsed = match &video.content_details {
        Some(details) => match &details.duration {
            Some(text) => parse_iso_duration(text.as_str()),
            None => None,
        },
        None => None,
    };
    metadata_of(video, parsed)
}

/// The metadata of the first of the records `items` that a lookup by
/// video id brought, or what is wrong: no list (`items`), an empty list
/// (`items[0]`), or a fault of the record.
pub open spec fn spec_extract_video_metadata(items: Option<Seq<VideoView>>) -> Result<
    MetadataView,
    ErrorView,
> {
    match items {
        None => Err(ErrorView::MissingValue("items"@)),
        Some(videos) => if videos.len() == 0 {
            Err(ErrorView::MissingValue("items[0]"@))
        } else {
            spec_extract_metadata(videos[0], parsed_duration(videos[0]))
        },
    }
}

/// Builds the metadata of a video from the answer to a lookup by its id.
pub fn extract_video_metadata(items: &Option<Vec<Video>>) -> (r: Result<Metadata, Error>)
    ensures
        outcome(r) == spec_extract_video_metadata(items.deep_view()),
{
    match items {
        Some(videos) => {
            if videos.len() == 0 {
                Err(Error::missing_value("items[0]"))
            } else {
                extract_metadata(&videos[0])
            }
        },
        None => Err(Error::missing_value("items")),
    }
}

/// The ids of the entries of a playlist, joined by commas, or what is
/// wrong: no list (`playlist_items`) or an entry without id
/// (`playlist_item_id`).
pub open spec fn spec_playlist_video_ids(items: Option<Seq<Option<Seq<char>>>>) -> Result<
    Seq<char>,
    ErrorView,
> {
    match items {
        None => Err(ErrorView::MissingValue("playlist_items"@)),
        Some(ids) => if exists|i: int| 0 <= i < ids.len() && ids[i] is None {
            Err(ErrorView::MissingValue("playlist_item_id"@))
        } else {
            Ok(joined(Seq::new(ids.len(), |i: int| ids[i]->0), ","@))
        },
    }
}

/// Collects the ids of the entries of a playlist for the lookup of their
/// videos.
pub fn playlist_video_ids(items: Option<Vec<Option<String>>>) -> (r: Result<String, Error>)
    ensures
        match r {
            Ok(ids) => spec_playlist_video_ids(items.deep_view()) == Ok::<Seq<char>, ErrorView>(
                ids@,
            ),
            Err(e) => spec_playlist_video_ids(items.deep_view()) == Err::<Seq<char>, ErrorView>(
                e@,
            ),
        },
{
    let entries = match items {
        Some(entries) => entries,
        None => {
            return Err(Error::missing_value("playlist_items"));
        },
    };
    let ghost ids = entries.deep_view();
    let ghost whole = entries@;
    let mut collected: Vec<String> = Vec::new();
    proof {
        assert(collected.deep_view() =~= Seq::<Seq<char>>::empty());
    }
    proof {
        assert(ids =~= Seq::new(whole.len(), |i: int| whole[i].deep_view()));
    }
    for entry in it: entries
        invariant
            it.seq() == whole,
            items.deep_view() == Some(ids),
            ids == Seq::new(whole.len(), |i: int| whole[i].deep_view()),
            forall|i: int| 0 <= i < it.index() ==> ids[i] is Some,
            collected.deep_view() == Seq::new(it.index() as nat, |i: int| ids[i]->0),
    {
        let ghost k = it.index();
        let ghost before = collected.deep_view();
        match entry {
            Some(id) => {
                collected.push(id);
                proof {
                    assert(ids[k] == Some(id@));
                    assert(collected.deep_view() =~= before.push(id@));
                    assert(collected.deep_view() =~= Seq::new((k + 1) as nat, |i: int| ids[i]->0));
                }
            },
            None => {
                proof {
                    assert(0 <= k < ids.len() && ids[k] is None);
                }
                return Err(Error::missing_value("playlist_item_id"));
            },
        }
    }
    proof {
        assert(collected.deep_view() =~= Seq::new(ids.len(), |i: int| ids[i]->0));
    }
    Ok(join(&collected, ","))
}

/// The metadata of the records `items`, or what is wrong: no list
/// (`video_items`), or the fault of the first record that has one.
pub open spec fn spec_extract_all(items: Seq<VideoView>) -> Result<Seq<MetadataView>, ErrorView>
    decreases items.len(),
{
    if items.len() == 0 {
        Ok(Seq::empty())
    } else {
        match spec_extract_all(items.drop_last()) {
            Err(e) => Err(e),
            Ok(before) => match spec_extract_metadata(
                items.last(),
                parsed_duration(items.last()),
            ) {
                Err(e) => Err(e),
                Ok(m) => Ok(before.push(m)),
            },
        }
    }
}

/// What [`extract_playlist_video_metadata`] gives.
pub open spec fn spec_extract_playlist_video_metadata(items: Option<Seq<VideoView>>) -> Result<
    Seq<MetadataView>,
    ErrorView,
> {
    match items {
        None => Err(ErrorView::MissingValue("video_items"@)),
        Some(videos) => spec_extract_all(videos),
    }
}

/// The values of a sequence of metadata.
pub open spec fn metadata_views(items: Seq<Metadata>) -> Seq<MetadataView> {
    Seq::new(items.len(), |i: int| items[i]@)
}

/// Builds the metadata of the videos of a playlist from the answer to the
/// lookup of its videos; the first faulty record fails the whole.
pub fn extract_playlist_video_metadata(items: &Option<Vec<Video>>) -> (r: Result<
    Vec<Metadata>,
    Error,
>)
    ensures
        match r {
            Ok(list) => spec_extract_playlist_video_metadata(items.deep_view()) == Ok::<
                Seq<MetadataView>,
                ErrorView,
            >(metadata_views(list@)),
            Err(e) => spec_extract_playlist_video_metadata(items.deep_view()) == Err::<
                Seq<MetadataView>,
                ErrorView,
            >(e@),
        },
{
    let videos = match items {
        Some(videos) => videos,
        None => {
            return Err(Error::missing_value("video_items"));
        },
    };
    let ghost all = videos.deep_view();
    let mut list: Vec<Metadata> = Vec::new();
    let mut i: usize = 0;
    proof {
        assert(metadata_views(list@) =~= Seq::empty());
    }
    while i < videos.len()
        invariant
            i <= videos@.len(),
            all == videos.deep_view(),
            items.deep_view() == Some(all),
            spec_extract_all(all.take(i as int)) == Ok::<Seq<MetadataView>, ErrorView>(
                metadata_views(list@),
            ),
        decreases videos@.len() - i,
    {
        let ghost before = metadata_views(list@);
        proof {
            assert(all.take(i + 1).drop_last() =~= all.take(i as int));
            assert(all.take(i + 1).last() == videos@[i as int]@);
        }
        match extract_metadata(&videos[i]) {
            Ok(m) => {
                list.push(m);
                proof {
                    assert(metadata_views(list@) =~= before.push(m@));
                }
            },
            Err(e) => {
                proof {
                    assert(spec_extract_all(all.take(i + 1)) == Err::<
                        Seq<MetadataView>,
                        ErrorView,
                    >(e@));
                    lemma_extract_all_fails(all, i + 1);
                }
                return Err(e);
            },
        }
        i += 1;
    }
    proof {
        assert(all.take(all.len() as int) =~= all);
    }
    Ok(list)
}

/// A fault among the first `k` records is the fault of the whole list.
proof fn lemma_extract_all_fails(items: Seq<VideoView>, k: int)
    requires
        0 <= k <= items.len(),
        spec_extract_all(items.take(k)) is Err,
    ensures
        spec_extract_all(items) == spec_extract_all(items.take(k)),
    decreases items.len() - k,
{
    if k < items.len() {
        assert(items.take(k + 1).drop_last() =~= items.take(k));
        lemma_extract_all_fails(items, k + 1);
    } else {
        assert(items.take(k) =~= items);
    }
}

} // verus!
