//! Telling what plays.

use crate::commands::play::announced;
use crate::metadata::MiniMetadataView;
use crate::session::Session;
use crate::text::{chars_of, push_str};
use crate::track::TrackReference;
use crate::utils::{format_duration, format_tail, full_notation, last_chars, short_notation};
use vstd::prelude::*;

verus! {

/// The line `[title](locator) | place/playing time` of a track that has
/// played for `play_time` seconds; the place is written with as many
/// characters as the playing time.
pub open spec fn spec_song_line(m: MiniMetadataView, play_time: u64) -> Seq<char> {
    let total = short_notation(m.duration as nat);
    "["@ + m.title + "]("@ + m.source_url + ") | "@ + last_chars(
        full_notation(play_time as nat),
        total.len(),
    ) + "/"@ + total
}

/// Writes the line that tells what plays, the current track having played
/// for `play_time` seconds. There is none while nothing is queued or the
/// current track is a query without an answer.
pub fn song(session: &Session, play_time: u64) -> (line: Option<String>)
    ensures
        match line {
            Some(text) => {
                &&& session@.queue.current() matches Some(t)
                &&& announced(t) matches Some(m)
                &&& text@ == spec_song_line(m, play_time)
            },
            None => session@.queue.current() is None || announced(session@.queue.current()->0)
                is None,
        },
{
    let metadata = match session.queue.current() {
        None => {
            return None;
        },
        Some(track) => match &track.reference {
            TrackReference::Eager { metadata } => metadata,
            TrackReference::Lazy { slot: Some(metadata), .. } => metadata,
            TrackReference::Lazy { slot: None, .. } => {
                return None;
            },
        },
    };
    let total = format_duration(metadata.duration, None);
    let width = chars_of(total.as_str()).len();
    let reached = format_tail(play_time, width);
    let mut line = String::new();
    push_str(&mut line, "[");
    push_str(&mut line, metadata.title.as_str());
    push_str(&mut line, "](");
    push_str(&mut line, metadata.source_url.as_str());
    push_str(&mut line, ") | ");
    push_str(&mut line, reached.as_str());
    push_str(&mut line, "/");
    push_str(&mut line, total.as_str());
    Some(line)
}

} // verus!
