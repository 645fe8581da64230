//! Notation of playing times and the text lines that the replies show.

use crate::metadata::{MiniMetadata, MiniMetadataView, MiniUser, MiniUserView};
use crate::text::{
    chars_of, decimal, lemma_padded2_len, padded2, push_decimal, push_padded2, push_str, string_of,
};
use vstd::prelude::*;

verus! {

/// The notation `DD:HH:MM:SS` of a playing time of `secs` seconds: days,
/// hours, minutes and seconds, each of at least two digits.
pub open spec fn full_notation(secs: nat) -> Seq<char> {
    padded2(secs / 86400) + seq![':'] + padded2(secs / 3600 % 24) + seq![':'] + padded2(
        secs / 60 % 60,
    ) + seq![':'] + padded2(secs % 60)
}

/// The notation without the leading groups that are zero: `MM:SS` under an
/// hour, `HH:MM:SS` under a day, `DD:HH:MM:SS` from there on.
pub open spec fn short_notation(secs: nat) -> Seq<char> {
    if secs < 3600 {
        padded2(secs / 60 % 60) + seq![':'] + padded2(secs % 60)
    } else if secs < 86400 {
        padded2(secs / 3600 % 24) + seq![':'] + padded2(secs / 60 % 60) + seq![':'] + padded2(
            secs % 60,
        )
    } else {
        full_notation(secs)
    }
}

/// The last `length` characters of `text`, and all of it where it has
/// fewer.
pub open spec fn last_chars(text: Seq<char>, length: nat) -> Seq<char> {
    if length <= text.len() {
        text.skip(text.len() - length)
    } else {
        text
    }
}

/// What [`format_duration`] returns.
pub open spec fn spec_format_duration(secs: nat, length: Option<u32>) -> Seq<char> {
    match length {
        Some(l) => last_chars(full_notation(secs), l as nat),
        None => short_notation(secs),
    }
}

/// `text` without its leading `00:` groups, as far as more than five
/// characters are left.
pub open spec fn without_zero_groups(text: Seq<char>) -> Seq<char>
    decreases text.len(),
{
    if text.len() > 5 && text.take(3) == seq!['0', '0', ':'] {
        without_zero_groups(text.skip(3))
    } else {
        text
    }
}

proof fn lemma_padded2_digits(n: nat)
    requires
        n < 100,
    ensures
        padded2(n) == seq![crate::text::digit((n / 10) as int), crate::text::digit((n % 10) as int)],
{
    if n >= 10 {
        assert(decimal(n / 10) == seq![crate::text::digit((n / 10) as int)]);
        assert(decimal(n) =~= seq![
            crate::text::digit((n / 10) as int),
            crate::text::digit((n % 10) as int),
        ]);
    } else {
        assert(padded2(n) =~= seq![crate::text::digit(0), crate::text::digit(n as int)]);
    }
}

/// The short notation is the full one without its leading `00:` groups,
/// as far as more than five characters are left.
pub proof fn lemma_short_notation_strips(secs: nat)
    ensures
        short_notation(secs) == without_zero_groups(full_notation(secs)),
        short_notation(secs).len() >= 5,
        short_notation(secs).len() == 5 <==> secs < 3600,
        full_notation(secs).len() >= 11,
{
    let d = secs / 86400;
    let h = secs / 3600 % 24;
    let m = secs / 60 % 60;
    let s = secs % 60;
    lemma_padded2_len(d);
    lemma_padded2_len(h);
    lemma_padded2_len(m);
    lemma_padded2_len(s);
    let zero = seq!['0', '0', ':'];
    let colon = seq![':'];
    let tail = padded2(m) + colon + padded2(s);
    let mid = padded2(h) + colon + tail;
    let full = full_notation(secs);
    assert(full =~= padded2(d) + colon + mid);
    assert(tail.len() == 5);
    assert(without_zero_groups(tail) == tail);
    if secs < 86400 {
        assert(d == 0);
        lemma_padded2_digits(0);
        assert(padded2(0) + colon =~= zero);
        assert(full =~= zero + mid);
        assert(full.take(3) =~= zero);
        assert(full.skip(3) =~= mid);
        assert(without_zero_groups(full) == without_zero_groups(mid));
        if secs < 3600 {
            assert(h == 0);
            assert(mid =~= zero + tail);
            assert(mid.take(3) =~= zero);
            assert(mid.skip(3) =~= tail);
            assert(without_zero_groups(mid) == without_zero_groups(tail));
        } else {
            assert(1 <= h < 24);
            lemma_padded2_digits(h);
            assert(mid.take(3)[0] == padded2(h)[0]);
            assert(mid.take(3)[1] == padded2(h)[1]);
            assert(mid.take(3) != zero) by {
                if mid.take(3) == zero {
                    assert(padded2(h)[0] == '0' && padded2(h)[1] == '0');
                    assert(h / 10 == 0 && h % 10 == 0);
                }
            }
            assert(mid =~= short_notation(secs));
        }
    } else {
        assert(d >= 1);
        assert(full.take(3) != zero) by {
            if d < 100 {
                lemma_padded2_digits(d);
                assert(full.take(3)[0] == padded2(d)[0]);
                assert(full.take(3)[1] == padded2(d)[1]);
                if full.take(3) == zero {
                    assert(padded2(d)[0] == '0' && padded2(d)[1] == '0');
                    assert(d / 10 == 0 && d % 10 == 0);
                }
            } else {
                crate::text::lemma_decimal_digits(d);
                assert(full.take(3)[2] == decimal(d)[2]);
                assert(zero[2] == ':');
            }
        }
    }
}

/// Writes the last `length` characters of the notation `DD:HH:MM:SS` of
/// `duration` seconds, and all of it where it has fewer.
pub fn format_tail(duration: u64, length: usize) -> (text: String)
    ensures
        text@ == last_chars(full_notation(duration as nat), length as nat),
{
    let s = duration % 60;
    let m = duration / 60 % 60;
    let h = duration / 3600 % 24;
    let d = duration / 86400;
    let mut out = String::new();
    push_padded2(&mut out, d);
    out.push(':');
    push_padded2(&mut out, h);
    out.push(':');
    push_padded2(&mut out, m);
    out.push(':');
    push_padded2(&mut out, s);
    proof {
        assert(out@ =~= full_notation(duration as nat));
    }
    let chars = chars_of(out.as_str());
    let n = chars.len();
    if length <= n {
        let text = string_of(&chars, n - length, n);
        proof {
            assert(text@ =~= out@.skip(out@.len() - length));
        }
        text
    } else {
        out
    }
}

/// Writes a playing time of `duration` seconds. With a `length`, the
/// result is the last `length` characters of the notation `DD:HH:MM:SS`
/// (all of it where it has fewer); without one, the leading groups that
/// are zero are left out, down to `MM:SS`.
pub fn format_duration(duration: u64, length: Option<u32>) -> (text: String)
    ensures
        text@ == spec_format_duration(duration as nat, length),
{
    let s = duration % 60;
    let m = duration / 60 % 60;
    let h = duration / 3600 % 24;
    let d = duration / 86400;
    let mut out = String::new();
    match length {
        None => {
            if duration >= 86400 {
                push_padded2(&mut out, d);
                out.push(':');
            }
            if duration >= 3600 {
                push_padded2(&mut out, h);
                out.push(':');
            }
            push_padded2(&mut out, m);
            out.push(':');
            push_padded2(&mut out, s);
            proof {
                assert(out@ =~= short_notation(duration as nat));
            }
            out
        },
        Some(l) => format_tail(duration, l as usize),
    }
}

/// The line `[title](locator) | playing time` of a track.
pub open spec fn spec_track_line(m: MiniMetadataView) -> Seq<char> {
    "["@ + m.title + "]("@ + m.source_url + ") | "@ + short_notation(m.duration as nat)
}

/// Writes the line that names a track in a reply.
pub fn track_line(metadata: &MiniMetadata) -> (line: String)
    ensures
        line@ == spec_track_line(metadata@),
{
    let mut line = String::new();
    push_str(&mut line, "[");
    push_str(&mut line, metadata.title.as_str());
    push_str(&mut line, "](");
    push_str(&mut line, metadata.source_url.as_str());
    push_str(&mut line, ") | ");
    let time = format_duration(metadata.duration, None);
    push_str(&mut line, time.as_str());
    line
}

/// The title of the reply to more than one queued track.
pub open spec fn spec_added_title(count: nat) -> Seq<char> {
    "Added "@ + decimal(count) + " tracks"@
}

/// Writes the title of the reply to `count` queued tracks.
pub fn added_title(count: u64) -> (title: String)
    ensures
        title@ == spec_added_title(count as nat),
{
    let mut title = String::new();
    push_str(&mut title, "Added ");
    push_decimal(&mut title, count as u128);
    push_str(&mut title, " tracks");
    title
}

/// The page of a member.
pub open spec fn spec_user_url(id: u64) -> Seq<char> {
    "https://discordapp.com/users/"@ + decimal(id as nat)
}

/// The member shown as the author of a card.
#[derive(Debug)]
pub struct Author {
    pub url: String,
    pub name: String,
    pub icon_url: Option<String>,
}

/// The card that announces a track: title, description and author.
#[derive(Debug)]
pub struct NowPlaying {
    pub title: String,
    pub description: String,
    pub author: Option<Author>,
}

impl NowPlaying {
    /// Whether this card is the one that announces `metadata` for the
    /// member `added_by`.
    pub open spec fn announces(self, metadata: MiniMetadataView, added_by: Option<MiniUserView>) -> bool {
        &&& self.title@ == "Now Playing:"@
        &&& self.description@ == spec_track_line(metadata)
        &&& match added_by {
            None => self.author is None,
            Some(user) => {
                &&& self.author matches Some(author)
                &&& author.url@ == spec_user_url(user.id)
                &&& author.name@ == user.name
                &&& author.icon_url.deep_view() == user.avatar_url
            },
        }
    }
}

/// Builds the card that announces a track.
pub fn create_now_playing_embed(metadata: MiniMetadata, added_by: Option<MiniUser>) -> (card:
    NowPlaying)
    ensures
        card.announces(metadata@, added_by.deep_view()),
{
    let description = track_line(&metadata);
    let author = match added_by {
        Some(user) => {
            let mut url = String::new();
            push_str(&mut url, "https://discordapp.com/users/");
            push_decimal(&mut url, user.id as u128);
            Some(Author { url, name: user.name, icon_url: user.avatar_url })
        },
        None => None,
    };
    NowPlaying { title: "Now Playing:".to_owned(), description, author }
}

} // verus!
