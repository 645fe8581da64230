use diwa::error::{Error, GeneralError, LibError, VoiceError};
use diwa::metadata::{MiniMetadata, MiniUser};
use diwa::text::{chars_of, digit_char, push_decimal, push_padded2, push_str, str_eq, string_of};
use diwa::utils::{added_title, create_now_playing_embed, format_duration, format_tail, track_line};

#[test]
fn short_times_show_minutes_and_seconds() {
    assert_eq!(format_duration(0, None), "00:00");
    assert_eq!(format_duration(59, None), "00:59");
    assert_eq!(format_duration(60, None), "01:00");
    assert_eq!(format_duration(180, None), "03:00");
    assert_eq!(format_duration(200, None), "03:20");
    assert_eq!(format_duration(3599, None), "59:59");
}

#[test]
fn long_times_show_hours_and_days() {
    assert_eq!(format_duration(3600, None), "01:00:00");
    assert_eq!(format_duration(3723, None), "01:02:03");
    assert_eq!(format_duration(86399, None), "23:59:59");
    assert_eq!(format_duration(86400, None), "01:00:00:00");
    assert_eq!(format_duration(90061, None), "01:01:01:01");
    assert_eq!(format_duration(8_640_000, None), "100:00:00:00");
    assert_eq!(format_duration(u64::MAX, None), "213503982334601:07:00:15");
}

#[test]
fn a_length_cuts_from_the_left() {
    assert_eq!(format_duration(65, Some(5)), "01:05");
    assert_eq!(format_duration(65, Some(8)), "00:01:05");
    assert_eq!(format_duration(65, Some(11)), "00:00:01:05");
    assert_eq!(format_duration(65, Some(12)), "00:00:01:05");
    assert_eq!(format_duration(65, Some(u32::MAX)), "00:00:01:05");
    assert_eq!(format_duration(65, Some(0)), "");
    assert_eq!(format_duration(65, Some(1)), "5");
    assert_eq!(format_duration(3723, Some(5)), "02:03");
    assert_eq!(format_tail(3723, 8), "01:02:03");
    assert_eq!(format_tail(3723, 100), "00:01:02:03");
}

#[test]
fn track_line_links_the_title() {
    let m = MiniMetadata {
        title: "Song Title".to_owned(),
        duration: 200,
        source_url: "https://youtu.be/abc".to_owned(),
    };
    assert_eq!(track_line(&m), "[Song Title](https://youtu.be/abc) | 03:20");
    assert_eq!(track_line(&MiniMetadata::empty()), "[]() | 00:00");
}

#[test]
fn added_title_counts() {
    assert_eq!(added_title(2), "Added 2 tracks");
    assert_eq!(added_title(50), "Added 50 tracks");
    assert_eq!(added_title(0), "Added 0 tracks");
}

#[test]
fn now_playing_card_names_the_member() {
    let m = MiniMetadata { title: "T".to_owned(), duration: 3600, source_url: "u".to_owned() };
    let user = MiniUser {
        id: 123456789012345678,
        name: "ann".to_owned(),
        avatar_url: Some("https://cdn/pic.png".to_owned()),
    };
    let card = create_now_playing_embed(m.clone(), Some(user));
    assert_eq!(card.title, "Now Playing:");
    assert_eq!(card.description, "[T](u) | 01:00:00");
    let author = card.author.unwrap();
    assert_eq!(author.url, "https://discordapp.com/users/123456789012345678");
    assert_eq!(author.name, "ann");
    assert_eq!(author.icon_url.as_deref(), Some("https://cdn/pic.png"));
    assert!(create_now_playing_embed(m, None).author.is_none());
}

#[test]
fn decimal_notation() {
    let mut s = String::from("n=");
    push_decimal(&mut s, 0);
    push_str(&mut s, ",");
    push_decimal(&mut s, 9);
    push_str(&mut s, ",");
    push_decimal(&mut s, 10);
    push_str(&mut s, ",");
    push_decimal(&mut s, 1234567890);
    push_str(&mut s, ",");
    push_decimal(&mut s, u128::MAX);
    assert_eq!(s, "n=0,9,10,1234567890,340282366920938463463374607431768211455");
    let mut p = String::new();
    push_padded2(&mut p, 0);
    push_padded2(&mut p, 7);
    push_padded2(&mut p, 42);
    push_padded2(&mut p, 123);
    assert_eq!(p, "000742123");
    assert_eq!(digit_char(0), '0');
    assert_eq!(digit_char(9), '9');
}

#[test]
fn text_helpers() {
    assert_eq!(chars_of("aé€"), vec!['a', 'é', '€']);
    assert_eq!(string_of(&vec!['a', 'b', 'c', 'd'], 1, 3), "bc");
    assert_eq!(string_of(&vec!['a'], 1, 1), "");
    assert!(str_eq("abc", "abc"));
    assert!(!str_eq("abc", "abd"));
    assert!(!str_eq("abc", "ab"));
    assert!(str_eq("", ""));
}

#[test]
fn errors_describe_themselves() {
    let e = LibError::missing_value("title");
    assert_eq!(e.description(), "title");
    assert_eq!(e.message(), "Missing Value: `title`");
    let e = LibError::url_error("Incorrect Url Format");
    assert_eq!(e.description(), "Incorrect Url Format");
    assert_eq!(e.message(), "Url Error: `Incorrect Url Format`");
    assert_eq!(VoiceError::DifferentChannel.description(), "Different channel");
    assert_eq!(VoiceError::DifferentChannel.message(), "Different channel");
    let e = GeneralError::new("went wrong".to_owned());
    assert_eq!(e.description(), "went wrong");
    assert_eq!(e.message(), "went wrong");
    assert_eq!(Error::missing_value("id").message(), "Missing Value: `id`");
    assert_eq!(Error::general("x".to_owned()).message(), "x");
    assert_eq!(Error::Voice(VoiceError::DifferentChannel).message(), "Different channel");
    assert_eq!(Error::Lib(LibError::url_error("u")).message(), "Url Error: `u`");
}
