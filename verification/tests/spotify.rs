use diwa::spotify_to_query::{extract_playlist_queries, join, TrackData};

#[test]
fn query_names_title_and_artists() {
    let track = TrackData::new("Song".to_owned(), vec!["A".to_owned(), "B".to_owned()]);
    assert_eq!(track.title, "Song");
    assert_eq!(track.artists, vec!["A".to_owned(), "B".to_owned()]);
    assert_eq!(track.search_query(), "Song by A, B");
    assert_eq!(TrackData::new("Solo".to_owned(), vec!["One".to_owned()]).search_query(), "Solo by One");
    assert_eq!(TrackData::new("None".to_owned(), vec![]).search_query(), "None by ");
}

#[test]
fn join_puts_the_separator_between() {
    let items: Vec<String> = vec!["a".into(), "".into(), "c".into()];
    assert_eq!(join(&items, ", "), "a, , c");
    assert_eq!(join(&vec![], ","), "");
    assert_eq!(join(&vec!["x".to_owned()], ","), "x");
    assert_eq!(join(&items, ""), "ac");
}

#[test]
fn only_tracks_of_a_playlist_are_kept() {
    let items = vec![
        Some(TrackData::new("a".into(), vec![])),
        None,
        Some(TrackData::new("b".into(), vec![])),
        None,
    ];
    let tracks = extract_playlist_queries(items);
    assert_eq!(tracks.len(), 2);
    assert_eq!(tracks[0].title, "a");
    assert_eq!(tracks[1].title, "b");
    assert!(extract_playlist_queries(vec![None]).is_empty());
    assert!(extract_playlist_queries(vec![]).is_empty());
}
