use diwa::convert_query::{
    classify_url, continue_query, convert_query, extract_media, lookup_for, Conversion, Fetched,
    LazyQueued, Lookup, Media, UrlParts,
};
use diwa::error::LibError;
use diwa::metadata::Metadata;
use diwa::spotify_to_query::TrackData;
use diwa::track::LazyMetadataTrait;

fn fault(r: Result<Media, LibError>) -> String {
    match r {
        Err(LibError::UrlError { description }) => description,
        other => panic!("{:?}", other),
    }
}

fn parts(domain: Option<&str>, path: &str, pairs: &[(&str, &str)]) -> UrlParts {
    UrlParts {
        domain: domain.map(|d| d.to_owned()),
        path: path.to_owned(),
        query_pairs: pairs.iter().map(|(k, v)| (k.to_string(), v.to_string())).collect(),
        path_segments: path
            .strip_prefix('/')
            .map(|rest| rest.split('/').map(|s| s.to_owned()).collect()),
    }
}

#[test]
fn video_site_locators() {
    assert!(matches!(
        extract_media("https://www.youtube.com/watch?v=dQw4w9WgXcQ"),
        Ok(Media::YouTubeVideo(id)) if id == "dQw4w9WgXcQ"
    ));
    assert!(matches!(
        extract_media("https://youtube.com/watch?list=PL123&v=abc"),
        Ok(Media::YouTubeVideo(id)) if id == "abc"
    ));
    assert!(matches!(
        extract_media("https://www.youtube.com/playlist?list=PL123"),
        Ok(Media::YouTubePlaylist(id)) if id == "PL123"
    ));
    assert!(matches!(
        extract_media("https://www.youtube.com/watch?v=first&v=second"),
        Ok(Media::YouTubeVideo(id)) if id == "first"
    ));
    assert!(matches!(
        extract_media("https://www.youtube.com/watch?v=a%20b"),
        Ok(Media::YouTubeVideo(id)) if id == "a b"
    ));
    assert_eq!(fault(extract_media("https://www.youtube.com/watch")), "Incorrect Url Format");
    assert_eq!(fault(extract_media("https://youtube.com/?x=1")), "Incorrect Url Format");
}

#[test]
fn short_video_locators() {
    assert!(matches!(
        extract_media("https://youtu.be/dQw4w9WgXcQ"),
        Ok(Media::YouTubeVideo(id)) if id == "dQw4w9WgXcQ"
    ));
    assert!(matches!(
        extract_media("https://www.youtu.be/abc?t=3"),
        Ok(Media::YouTubeVideo(id)) if id == "abc"
    ));
    assert!(matches!(
        extract_media("https://youtu.be"),
        Ok(Media::YouTubeVideo(id)) if id.is_empty()
    ));
}

#[test]
fn music_site_locators() {
    assert!(matches!(
        extract_media("https://open.spotify.com/track/4uLU6hMCjMI75M1A2tKUQC"),
        Ok(Media::SpotifyTrack(id)) if id == "4uLU6hMCjMI75M1A2tKUQC"
    ));
    assert!(matches!(
        extract_media("https://open.spotify.com/playlist/37i9?si=x"),
        Ok(Media::SpotifyPlaylist(id)) if id == "37i9"
    ));
    assert!(matches!(
        extract_media("https://www.open.spotify.com/album/1A2B/extra"),
        Ok(Media::SpotifyAlbum(id)) if id == "1A2B"
    ));
    assert_eq!(fault(extract_media("https://open.spotify.com/artist/xyz")), "Unknown Content Type");
    assert_eq!(fault(extract_media("https://open.spotify.com/track")), "Required Arguments Missing");
    assert_eq!(fault(extract_media("https://open.spotify.com")), "Required Arguments Missing");
}

#[test]
fn other_locators() {
    assert!(matches!(
        extract_media("https://soundcloud.com/a/b"),
        Ok(Media::Search(q)) if q == "https://soundcloud.com/a/b"
    ));
    assert_eq!(fault(extract_media("song title")), "Invalid Url");
    assert_eq!(fault(extract_media("")), "Invalid Url");
    assert_eq!(fault(extract_media("https://127.0.0.1/watch?v=abc")), "Parsing Error");
    assert_eq!(fault(extract_media("mailto:someone@example.net")), "Parsing Error");
}

#[test]
fn parts_are_classified() {
    let r = classify_url("q", &parts(Some("youtube.com"), "/watch", &[("t", "1"), ("v", "id")]));
    assert!(matches!(r, Ok(Media::YouTubeVideo(id)) if id == "id"));
    let r = classify_url("q", &parts(Some("youtu.be"), "", &[]));
    assert_eq!(fault(r), "Incorrect Url Format");
    let r = classify_url("q", &parts(Some("youtu.be"), "/a/b", &[]));
    assert!(matches!(r, Ok(Media::YouTubeVideo(id)) if id == "a/b"));
    let mut no_segments = parts(Some("open.spotify.com"), "/track/x", &[]);
    no_segments.path_segments = None;
    assert_eq!(fault(classify_url("q", &no_segments)), "Parsing Error");
    let r = classify_url("the query", &parts(Some("example.org"), "/", &[("v", "id")]));
    assert!(matches!(r, Ok(Media::Search(q)) if q == "the query"));
    assert_eq!(fault(classify_url("q", &parts(None, "/", &[]))), "Parsing Error");
    let r = classify_url("q", &parts(Some("YouTube.com"), "/", &[("v", "id")]));
    assert!(matches!(r, Ok(Media::Search(_))));
}

#[test]
fn media_decide_the_first_lookup() {
    assert!(matches!(lookup_for(Media::YouTubeVideo("a".into())), Lookup::Video(id) if id == "a"));
    assert!(matches!(lookup_for(Media::YouTubePlaylist("a".into())), Lookup::Playlist(id) if id == "a"));
    assert!(matches!(lookup_for(Media::SpotifyTrack("a".into())), Lookup::SpotifyTrack(id) if id == "a"));
    assert!(matches!(lookup_for(Media::SpotifyPlaylist("a".into())), Lookup::SpotifyPlaylist(id) if id == "a"));
    assert!(matches!(lookup_for(Media::SpotifyAlbum("a".into())), Lookup::SpotifyPlaylist(id) if id == "a"));
    assert!(matches!(lookup_for(Media::Search("a".into())), Lookup::Search(q) if q == "a"));
    assert!(matches!(
        convert_query("https://youtu.be/xyz"),
        Ok(Lookup::Video(id)) if id == "xyz"
    ));
    assert!(matches!(convert_query("no locator"), Err(LibError::UrlError { .. })));
    let media = Media::SpotifyAlbum("z".into());
    assert!(matches!(media.clone(), Media::SpotifyAlbum(id) if id == "z"));
}

fn video(title: &str, duration: u64, url: Option<&str>) -> Metadata {
    let mut m = Metadata::unknown();
    m.title = Some(title.to_owned());
    m.duration = Some(duration);
    m.source_url = url.map(|u| u.to_owned());
    m
}

fn missing(r: Result<Conversion, LibError>) -> String {
    match r {
        Err(LibError::MissingValue { value }) => value,
        other => panic!("{:?}", other),
    }
}

#[test]
fn videos_become_eager_tracks() {
    let fetched = Fetched::Videos(vec![video("A", 10, Some("ua")), video("B", 20, None)]);
    match continue_query(&Lookup::Playlist("p".into()), fetched).unwrap() {
        Conversion::Tracks(tracks) => {
            assert_eq!(tracks.len(), 2);
            assert!(!tracks[0].is_lazy());
            assert_eq!(tracks[0].summary().title, "A");
            assert_eq!(tracks[0].summary().source_url, "ua");
            assert_eq!(tracks[1].summary().duration, 20);
            assert_eq!(tracks[1].summary().source_url, "");
        }
        other => panic!("{:?}", other),
    }
    match continue_query(&Lookup::Video("v".into()), Fetched::Videos(vec![])).unwrap() {
        Conversion::Tracks(tracks) => assert!(tracks.is_empty()),
        other => panic!("{:?}", other),
    }
}

#[test]
fn playlist_tracks_become_lazy_tracks() {
    let list = vec![
        TrackData::new("One".into(), vec!["X".into(), "Y".into()]),
        TrackData::new("Two".into(), vec![]),
    ];
    match continue_query(&Lookup::SpotifyPlaylist("p".into()), Fetched::SpotifyTracks(list)).unwrap()
    {
        Conversion::Tracks(tracks) => {
            assert_eq!(tracks.len(), 2);
            assert!(tracks[0].is_lazy());
            assert_eq!(tracks[0].pending_query(), Some("One by X, Y"));
            assert_eq!(tracks[1].pending_query(), Some("Two by "));
        }
        other => panic!("{:?}", other),
    }
}

#[test]
fn a_single_track_is_searched_at_once() {
    let list = vec![TrackData::new("One".into(), vec!["X".into()])];
    match continue_query(&Lookup::SpotifyTrack("t".into()), Fetched::SpotifyTracks(list)).unwrap() {
        Conversion::Next(Lookup::Search(q)) => assert_eq!(q, "One by X"),
        other => panic!("{:?}", other),
    }
    match continue_query(&Lookup::Search("One by X".into()), Fetched::Hit(video("Hit", 5, Some("u"))))
        .unwrap()
    {
        Conversion::Tracks(tracks) => {
            assert_eq!(tracks.len(), 1);
            assert_eq!(tracks[0].summary().title, "Hit");
        }
        other => panic!("{:?}", other),
    }
    assert_eq!(
        missing(continue_query(&Lookup::SpotifyTrack("t".into()), Fetched::SpotifyTracks(vec![]))),
        "track"
    );
}

#[test]
fn a_lookup_must_bring_its_kind() {
    assert_eq!(
        missing(continue_query(&Lookup::Video("v".into()), Fetched::Hit(Metadata::unknown()))),
        "videos"
    );
    assert_eq!(
        missing(continue_query(&Lookup::Playlist("v".into()), Fetched::SpotifyTracks(vec![]))),
        "videos"
    );
    assert_eq!(
        missing(continue_query(&Lookup::SpotifyPlaylist("v".into()), Fetched::Videos(vec![]))),
        "tracks"
    );
    assert_eq!(
        missing(continue_query(&Lookup::SpotifyTrack("v".into()), Fetched::Videos(vec![]))),
        "tracks"
    );
    assert_eq!(
        missing(continue_query(&Lookup::Search("v".into()), Fetched::Videos(vec![]))),
        "hit"
    );
}

#[test]
fn lazy_queued_needs_a_source() {
    match LazyQueued::new_lazy(video("A", 1, None)) {
        Err(LibError::MissingValue { value }) => assert_eq!(value, "source_url"),
        other => panic!("{:?}", other),
    }
    let lazy = LazyQueued::new_lazy(video("A", 1, Some("u"))).unwrap();
    let init = lazy.lazy_init();
    assert_eq!(init.title.as_deref(), Some("A"));
    assert_eq!(init.duration, Some(1));
    assert_eq!(init.source_url.as_deref(), Some("u"));
    let track = lazy.into_track();
    assert!(!track.is_lazy());

    let query = LazyQueued::new_lazy_soundcloud_query("find me".into()).unwrap();
    let init = query.lazy_init();
    assert_eq!(init.title.as_deref(), Some("find me"));
    assert_eq!(init.channels, Some(2));
    assert_eq!(init.sample_rate, Some(48000));
    assert_eq!(init.duration, None);
    assert_eq!(init.source_url, None);
    let track = query.into_track();
    assert!(track.is_lazy());
    assert_eq!(track.pending_query(), Some("find me"));
}
