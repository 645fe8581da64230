use diwa::error::LibError;
use diwa::metadata::{Metadata, MiniMetadata, MiniUser};
use diwa::track::{metadata_from_search, AddedBy, LazyMetadataTrait, SearchResult, Track};

fn found(title: &str, id: &str, duration: u64) -> SearchResult {
    SearchResult {
        title: Some(title.to_owned()),
        video_id: Some(id.to_owned()),
        duration: Some(duration),
    }
}

#[test]
fn lazy_track_is_resolved_by_its_search() {
    let mut track = Track::lazy("song title".to_owned());
    assert!(track.is_lazy());
    assert!(track.read_lazy_metadata().is_none());
    assert_eq!(track.pending_query(), Some("song title"));
    track.generate_lazy_metadata(Some(found("Song Title", "dQw4", 200)));
    let slot = track.read_lazy_metadata().unwrap();
    assert_eq!(slot.title, "Song Title");
    assert_eq!(slot.duration, 200);
    assert_eq!(slot.source_url, "https://youtu.be/dQw4");
    assert!(track.is_lazy());
    assert_eq!(track.pending_query(), None);
}

#[test]
fn resolving_twice_is_resolving_once() {
    let mut once = Track::lazy("q".to_owned());
    once.generate_lazy_metadata(Some(found("T", "id", 5)));
    let mut twice = Track::lazy("q".to_owned());
    twice.generate_lazy_metadata(Some(found("T", "id", 5)));
    twice.generate_lazy_metadata(Some(found("T", "id", 5)));
    let a = once.read_lazy_metadata().unwrap();
    let b = twice.read_lazy_metadata().unwrap();
    assert_eq!((a.title, a.duration, a.source_url), (b.title, b.duration, b.source_url));
}

#[test]
fn a_resolved_track_ignores_later_answers() {
    let mut track = Track::lazy("q".to_owned());
    track.generate_lazy_metadata(Some(found("First", "one", 1)));
    track.generate_lazy_metadata(Some(found("Second", "two", 2)));
    track.generate_lazy_metadata(None);
    let slot = track.read_lazy_metadata().unwrap();
    assert_eq!(slot.title, "First");
    assert_eq!(slot.source_url, "https://youtu.be/one");
}

#[test]
fn a_failed_search_leaves_the_track_unresolved() {
    let mut track = Track::lazy("q".to_owned());
    track.generate_lazy_metadata(None);
    assert!(track.read_lazy_metadata().is_none());
    assert_eq!(track.pending_query(), Some("q"));
    track.generate_lazy_metadata(Some(found("Late", "id", 3)));
    assert_eq!(track.read_lazy_metadata().unwrap().title, "Late");
}

#[test]
fn an_answer_with_nothing_in_it_leaves_the_track_unresolved() {
    let mut track = Track::lazy("q".to_owned());
    let nothing = SearchResult { title: None, video_id: None, duration: None };
    assert!(!nothing.found_something());
    track.generate_lazy_metadata(Some(nothing));
    assert!(track.read_lazy_metadata().is_none());
    assert_eq!(track.pending_query(), Some("q"));
    assert!(track.is_lazy());
    track.generate_lazy_metadata(Some(found("Later", "id", 4)));
    assert_eq!(track.read_lazy_metadata().unwrap().title, "Later");
}

#[test]
fn a_partial_answer_is_filled_with_empty_values() {
    let mut track = Track::lazy("q".to_owned());
    let partial = SearchResult { title: Some("Only Title".to_owned()), video_id: None, duration: None };
    assert!(partial.found_something());
    track.generate_lazy_metadata(Some(partial));
    let slot = track.read_lazy_metadata().unwrap();
    assert_eq!(slot.title, "Only Title");
    assert_eq!(slot.duration, 0);
    assert_eq!(slot.source_url, "");
    assert_eq!(track.pending_query(), None);

    let mut by_time = Track::lazy("q".to_owned());
    by_time.generate_lazy_metadata(Some(SearchResult {
        title: None,
        video_id: None,
        duration: Some(0),
    }));
    let slot = by_time.read_lazy_metadata().unwrap();
    assert_eq!((slot.title.as_str(), slot.duration, slot.source_url.as_str()), ("", 0, ""));

    let mut by_id = Track::lazy("q".to_owned());
    by_id.generate_lazy_metadata(Some(SearchResult {
        title: None,
        video_id: Some("abc".to_owned()),
        duration: None,
    }));
    assert_eq!(by_id.read_lazy_metadata().unwrap().source_url, "https://youtu.be/abc");
}

#[test]
fn an_eager_track_has_no_slot() {
    let metadata = MiniMetadata { title: "E".to_owned(), duration: 9, source_url: "u".to_owned() };
    let mut track = Track::eager(metadata);
    assert!(!track.is_lazy());
    assert_eq!(track.pending_query(), None);
    track.generate_lazy_metadata(Some(found("X", "y", 1)));
    assert!(track.read_lazy_metadata().is_none());
    track.write_lazy_metadata(MiniMetadata::empty());
    assert!(track.read_lazy_metadata().is_none());
    assert_eq!(track.summary().title, "E");
    assert_eq!(track.summary().duration, 9);
}

#[test]
fn write_lazy_metadata_overwrites_the_slot() {
    let mut track = Track::lazy("q".to_owned());
    track.write_lazy_metadata(MiniMetadata {
        title: "A".to_owned(),
        duration: 1,
        source_url: "a".to_owned(),
    });
    track.write_lazy_metadata(MiniMetadata {
        title: "B".to_owned(),
        duration: 2,
        source_url: "b".to_owned(),
    });
    let slot = track.read_lazy_metadata().unwrap();
    assert_eq!((slot.title.as_str(), slot.duration, slot.source_url.as_str()), ("B", 2, "b"));
}

#[test]
fn summary_of_an_unresolved_track_is_empty() {
    let track = Track::lazy("q".to_owned());
    let summary = track.summary();
    assert_eq!(summary.title, "");
    assert_eq!(summary.duration, 0);
    assert_eq!(summary.source_url, "");
}

#[test]
fn search_result_becomes_metadata() {
    let m = metadata_from_search(found("T", "abc123", 77));
    assert_eq!(m.title, "T");
    assert_eq!(m.duration, 77);
    assert_eq!(m.source_url, "https://youtu.be/abc123");
    let m = metadata_from_search(SearchResult {
        title: Some("T".to_owned()),
        video_id: None,
        duration: None,
    });
    assert_eq!(m.source_url, "");
    assert_eq!(m.duration, 0);
}

#[test]
fn added_by_is_recorded() {
    let mut track = Track::lazy("q".to_owned());
    assert!(track.read_added_by().is_none());
    let user = MiniUser { id: 5, name: "bob".to_owned(), avatar_url: Some("pic".to_owned()) };
    track.write_added_by(&user);
    let read = track.read_added_by().unwrap();
    assert_eq!(read.id, 5);
    assert_eq!(read.name, "bob");
    assert_eq!(read.avatar_url.as_deref(), Some("pic"));
    assert!(track.is_lazy());
}

#[test]
fn empty_metadata_is_empty() {
    let m = MiniMetadata::empty();
    assert_eq!(m.title, "");
    assert_eq!(m.duration, 0);
    assert_eq!(m.source_url, "");
}

#[test]
fn lossy_conversion_fills_the_gaps() {
    let mut value = Metadata::unknown();
    value.title = Some("T".to_owned());
    let m = MiniMetadata::lossy_from_metadata(value);
    assert_eq!(m.title, "T");
    assert_eq!(m.duration, 0);
    assert_eq!(m.source_url, "");
}

#[test]
fn strict_conversion_names_the_first_gap() {
    let detail = |r: Result<MiniMetadata, LibError>| match r {
        Err(LibError::MissingValue { value }) => value,
        other => panic!("{:?}", other.map(|m| m.title)),
    };
    assert_eq!(detail(MiniMetadata::try_from_metadata(Metadata::unknown())), "title");
    let mut value = Metadata::unknown();
    value.title = Some("T".to_owned());
    value.source_url = Some("u".to_owned());
    assert_eq!(detail(MiniMetadata::try_from_metadata(value)), "duration");
    let mut value = Metadata::unknown();
    value.title = Some("T".to_owned());
    value.duration = Some(3);
    assert_eq!(detail(MiniMetadata::try_from_metadata(value)), "source_url");
    let mut value = Metadata::unknown();
    value.title = Some("T".to_owned());
    value.duration = Some(3);
    value.source_url = Some("u".to_owned());
    let m = MiniMetadata::try_from_metadata(value).unwrap();
    assert_eq!((m.title.as_str(), m.duration, m.source_url.as_str()), ("T", 3, "u"));
}
