use diwa::error::{Error, LibError};
use diwa::metadata::Metadata;
use diwa::youtube_api::{
    extract_metadata, extract_playlist_video_metadata, extract_video_metadata, metadata_of,
    playlist_video_ids, IsoDuration, Video, VideoContentDetails, VideoSnippet,
};

fn video(id: Option<&str>, duration: Option<&str>, title: Option<&str>) -> Video {
    Video {
        id: id.map(|s| s.to_owned()),
        content_details: Some(VideoContentDetails { duration: duration.map(|s| s.to_owned()) }),
        snippet: Some(VideoSnippet { title: title.map(|s| s.to_owned()) }),
    }
}

fn missing<T: std::fmt::Debug>(r: Result<T, Error>) -> String {
    match r {
        Err(Error::Lib(LibError::MissingValue { value })) => value,
        other => panic!("{:?}", other),
    }
}

#[test]
fn a_complete_record_gives_metadata() {
    let m = extract_metadata(&video(Some("abc"), Some("PT3M20S"), Some("Song"))).unwrap();
    assert_eq!(m.title.as_deref(), Some("Song"));
    assert_eq!(m.duration, Some(200));
    assert_eq!(m.source_url.as_deref(), Some("https://youtu.be/abc"));
    assert_eq!(m.channels, Some(2));
    assert_eq!(m.sample_rate, Some(48000));
    let m = extract_metadata(&video(Some("x"), Some("PT1H2M3S"), Some("T"))).unwrap();
    assert_eq!(m.duration, Some(3723));
    let m = extract_metadata(&video(Some("x"), Some("P1W"), Some("T"))).unwrap();
    assert_eq!(m.duration, Some(604800));
    let m = extract_metadata(&video(Some("x"), Some("P1DT1S"), Some("T"))).unwrap();
    assert_eq!(m.duration, Some(86401));
}

#[test]
fn faults_come_in_order() {
    let mut v = video(None, None, None);
    v.content_details = None;
    v.snippet = None;
    assert_eq!(missing(extract_metadata(&v)), "contentDetails");
    let mut v = video(None, None, None);
    v.snippet = None;
    assert_eq!(missing(extract_metadata(&v)), "snippet");
    assert_eq!(missing(extract_metadata(&video(None, None, None))), "duration");
    match extract_metadata(&video(None, Some("three minutes"), None)) {
        Err(Error::General(e)) => {
            assert_eq!(e.description(), "Failed to parse duration: three minutes")
        }
        other => panic!("{:?}", other),
    }
    assert_eq!(missing(extract_metadata(&video(None, Some("PT1S"), None))), "id");
    assert_eq!(missing(extract_metadata(&video(Some("i"), Some("PT1S"), None))), "title");
}

#[test]
fn metadata_from_a_given_duration() {
    let v = video(Some("i"), Some("anything"), Some("T"));
    let m = metadata_of(&v, Some(IsoDuration::Weeks(2))).unwrap();
    assert_eq!(m.duration, Some(1_209_600));
    match metadata_of(&v, None) {
        Err(Error::General(e)) => assert_eq!(e.description(), "Failed to parse duration: anything"),
        other => panic!("{:?}", other),
    }
}

#[test]
fn iso_durations_in_seconds() {
    let d = IsoDuration::YMDHMS {
        year: 1,
        month: 2,
        day: 3,
        hour: 4,
        minute: 5,
        second: 6,
        millisecond: 789,
    };
    assert_eq!(d.as_secs(), 31_536_000 + 5_184_000 + 259_200 + 14_400 + 300 + 6);
    assert_eq!(IsoDuration::Weeks(0).as_secs(), 0);
    assert_eq!(IsoDuration::Weeks(u32::MAX).as_secs(), 4_294_967_295 * 604_800);
    let max = IsoDuration::YMDHMS {
        year: u32::MAX,
        month: u32::MAX,
        day: u32::MAX,
        hour: u32::MAX,
        minute: u32::MAX,
        second: u32::MAX,
        millisecond: u32::MAX,
    };
    assert_eq!(
        max.as_secs(),
        4_294_967_295u64 * (31_536_000 + 2_592_000 + 86_400 + 3600 + 60 + 1)
    );
}

#[test]
fn the_first_record_of_a_lookup_counts() {
    assert_eq!(missing(extract_video_metadata(&None)), "items");
    assert_eq!(missing(extract_video_metadata(&Some(vec![]))), "items[0]");
    let items = Some(vec![
        video(Some("first"), Some("PT5S"), Some("First")),
        video(Some("second"), Some("PT6S"), Some("Second")),
    ]);
    let m: Metadata = extract_video_metadata(&items).unwrap();
    assert_eq!(m.title.as_deref(), Some("First"));
    assert_eq!(m.duration, Some(5));
    assert_eq!(missing(extract_video_metadata(&Some(vec![video(None, Some("PT5S"), None)]))), "id");
}

#[test]
fn playlist_ids_are_joined() {
    assert_eq!(missing(playlist_video_ids(None)), "playlist_items");
    assert_eq!(playlist_video_ids(Some(vec![])).unwrap(), "");
    assert_eq!(playlist_video_ids(Some(vec![Some("a".to_owned())])).unwrap(), "a");
    assert_eq!(
        playlist_video_ids(Some(vec![Some("a".to_owned()), Some("b".to_owned()), Some("c".to_owned())]))
            .unwrap(),
        "a,b,c"
    );
    assert_eq!(
        missing(playlist_video_ids(Some(vec![Some("a".to_owned()), None, Some("c".to_owned())]))),
        "playlist_item_id"
    );
}

#[test]
fn playlist_videos_all_or_nothing() {
    assert_eq!(missing(extract_playlist_video_metadata(&None)), "video_items");
    assert!(extract_playlist_video_metadata(&Some(vec![])).unwrap().is_empty());
    let items = Some(vec![
        video(Some("a"), Some("PT1S"), Some("A")),
        video(Some("b"), Some("PT2S"), Some("B")),
    ]);
    let list = extract_playlist_video_metadata(&items).unwrap();
    assert_eq!(list.len(), 2);
    assert_eq!(list[0].title.as_deref(), Some("A"));
    assert_eq!(list[1].duration, Some(2));
    let items = Some(vec![
        video(Some("a"), Some("PT1S"), Some("A")),
        video(Some("b"), Some("PT2S"), None),
        video(None, Some("PT2S"), Some("C")),
    ]);
    assert_eq!(missing(extract_playlist_video_metadata(&items)), "title");
}
