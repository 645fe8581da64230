//! The paginated view of the queue and the searches that fill it.
//!
//! One page shows the current track and up to [`TRACKS_PER_PAGE`] of the
//! tracks behind it. Before a page is rendered, each track on it that is
//! still only a query gets one search; the searches are the caller's work
//! and may run side by side, the page is rendered from their outcomes.

use crate::metadata::{MiniMetadata, MiniMetadataView};
use crate::pager::{last_page, spec_last_page, Controls, PagerSession, TRACKS_PER_PAGE};
use crate::queue::{LoopState, Queue};
use crate::text::{chars_of, decimal, push_decimal, push_str, truth};
use crate::track::{answered, SearchResult, SearchResultView, Track, TrackView};
use crate::utils::{format_duration, format_tail, full_notation, last_chars, short_notation};
use vstd::prelude::*;

verus! {

/// The index in the queue of the first track of `page`: the current track
/// stands before all pages.
pub open spec fn window_start(page: u32) -> nat {
    (1 + TRACKS_PER_PAGE * page) as nat
}

/// The index behind the last track of `page` in a queue of `len` tracks.
pub open spec fn window_end(len: nat, page: u32) -> nat {
    let start = window_start(page);
    if start + TRACKS_PER_PAGE <= len {
        start + TRACKS_PER_PAGE as nat
    } else if start <= len {
        len
    } else {
        start
    }
}

/// The indices from `start` up to `n` of the tracks that are queries
/// without an answer, in rising order.
pub open spec fn targets_upto(tracks: Seq<TrackView>, start: nat, n: nat) -> Seq<int>
    decreases n,
{
    if n <= start {
        Seq::empty()
    } else {
        let before = targets_upto(tracks, start, (n - 1) as nat);
        if tracks[n - 1].unresolved() {
            before.push(n - 1)
        } else {
            before
        }
    }
}

/// The tracks that a burst for `page` searches for: the indices of the
/// tracks on the page that are queries without an answer, in rising order.
pub open spec fn burst_targets(tracks: Seq<TrackView>, page: u32) -> Seq<int> {
    targets_upto(tracks, window_start(page), window_end(tracks.len(), page))
}

/// `tracks` after the first `n` of `targets` have had their resolution
/// attempt with the outcome at the same place in `outcomes`.
pub open spec fn applied_upto(
    tracks: Seq<TrackView>,
    targets: Seq<int>,
    outcomes: Seq<Option<SearchResultView>>,
    n: nat,
) -> Seq<TrackView>
    decreases n,
{
    if n == 0 {
        tracks
    } else {
        let before = applied_upto(tracks, targets, outcomes, (n - 1) as nat);
        let index = targets[n - 1];
        before.update(index, before[index].resolved_with(outcomes[n - 1]))
    }
}

/// The smaller one of two numbers.
pub open spec fn least(a: nat, b: nat) -> nat {
    if a <= b {
        a
    } else {
        b
    }
}

/// `tracks` after a burst for `page` that brought `outcomes`, the first
/// outcome for the first target and so on. Outcomes beyond the targets are
/// not looked at; targets beyond the outcomes had no attempt.
pub open spec fn after_burst(
    tracks: Seq<TrackView>,
    page: u32,
    outcomes: Seq<Option<SearchResultView>>,
) -> Seq<TrackView> {
    let targets = burst_targets(tracks, page);
    applied_upto(tracks, targets, outcomes, least(targets.len(), outcomes.len()))
}

/// The targets between `start` and `n` are just the tracks there that are
/// queries without an answer, each once and in rising order.
pub proof fn lemma_targets(tracks: Seq<TrackView>, start: nat, n: nat)
    requires
        n <= tracks.len(),
    ensures
        targets_upto(tracks, start, n).len() <= (if n >= start {
            n - start
        } else {
            0
        }),
        forall|k: int|
            0 <= k < targets_upto(tracks, start, n).len() ==> {
                let i = #[trigger] targets_upto(tracks, start, n)[k];
                start <= i < n && tracks[i].unresolved()
            },
        forall|k: int, l: int|
            0 <= k < l < targets_upto(tracks, start, n).len() ==> (#[trigger] targets_upto(
                tracks,
                start,
                n,
            )[k]) < (#[trigger] targets_upto(tracks, start, n)[l]),
        forall|i: int|
            start <= i < n && (#[trigger] tracks[i]).unresolved() ==> targets_upto(
                tracks,
                start,
                n,
            ).contains(i),
    decreases n,
{
    if n > start {
        let before = targets_upto(tracks, start, (n - 1) as nat);
        let all = targets_upto(tracks, start, n);
        lemma_targets(tracks, start, (n - 1) as nat);
        assert forall|i: int| start <= i < n && (#[trigger] tracks[i]).unresolved() implies all.contains(
            i,
        ) by {
            if i == n - 1 {
                assert(all[all.len() - 1] == i);
            } else {
                assert(before.contains(i));
                let k = choose|k: int| 0 <= k < before.len() && before[k] == i;
                assert(all[k] == i);
            }
        }
    }
}

/// A page holds at most [`TRACKS_PER_PAGE`] tracks, all of them behind the
/// current one.
pub proof fn lemma_window(len: nat, page: u32)
    ensures
        1 <= window_start(page) <= window_end(len, page),
        window_end(len, page) - window_start(page) <= TRACKS_PER_PAGE,
        window_start(page) <= len ==> window_end(len, page) <= len,
{
}

/// The indices that a vector of indices holds.
pub open spec fn indices(v: Seq<usize>) -> Seq<int> {
    Seq::new(v.len(), |k: int| v[k] as int)
}

/// Plans the burst for `page`: the indices of the tracks on the page that
/// want a search, in rising order. The queue stays as it is.
pub fn search_burst(queue: &Queue, page: u32) -> (targets: Vec<usize>)
    ensures
        indices(targets@) == burst_targets(queue@.tracks, page),
        targets@.len() <= TRACKS_PER_PAGE,
        forall|k: int| 0 <= k < targets@.len() ==> (#[trigger] targets@[k]) < queue@.tracks.len(),
{
    let len = queue.len();
    assert(TRACKS_PER_PAGE == 6);
    let start: u64 = 1 + 6 * (page as u64);
    let mut targets: Vec<usize> = Vec::new();
    if start > len as u64 {
        proof {
            lemma_targets(queue@.tracks, window_start(page), 0);
            assert(window_end(len as nat, page) == window_start(page));
            assert(indices(targets@) =~= burst_targets(queue@.tracks, page));
        }
        return targets;
    }
    let first = start as usize;
    let end: usize = if len - first >= TRACKS_PER_PAGE as usize {
        first + TRACKS_PER_PAGE as usize
    } else {
        len
    };
    let mut i: usize = first;
    proof {
        assert(indices(targets@) =~= targets_upto(queue@.tracks, first as nat, i as nat));
    }
    while i < end
        invariant
            first <= i <= end <= len,
            len == queue@.tracks.len(),
            first == window_start(page),
            end == window_end(len as nat, page),
            indices(targets@) == targets_upto(queue@.tracks, first as nat, i as nat),
        decreases end - i,
    {
        let track = queue.get(i);
        let ghost before = indices(targets@);
        match track {
            Some(t) => {
                if t.pending_query().is_some() {
                    targets.push(i);
                    proof {
                        assert(indices(targets@) =~= before.push(i as int));
                    }
                }
            },
            None => {},
        }
        i += 1;
    }
    proof {
        lemma_targets(queue@.tracks, first as nat, end as nat);
        assert forall|k: int| 0 <= k < targets@.len() implies (#[trigger] targets@[k])
            < queue@.tracks.len() by {
            assert(indices(targets@)[k] == targets@[k]);
        }
    }
    targets
}

/// The values of a sequence of search outcomes.
pub open spec fn outcome_views(outcomes: Seq<Option<SearchResult>>) -> Seq<
    Option<SearchResultView>,
> {
    Seq::new(outcomes.len(), |i: int| outcomes[i].deep_view())
}

/// Ends the burst for `page`: hands each target, in the order of
/// [`search_burst`], the outcome of its search (`None`: the search
/// failed). Every other track stays as it is.
pub fn complete_burst(queue: &mut Queue, page: u32, outcomes: Vec<Option<SearchResult>>)
    ensures
        final(queue)@.tracks == after_burst(old(queue)@.tracks, page, outcomes.deep_view()),
        final(queue)@.looping == old(queue)@.looping,
{
    let targets = search_burst(queue, page);
    let ghost tracks = queue@.tracks;
    let ghost results = outcome_views(outcomes@);
    let ghost whole = outcomes@;
    let ghost limit = least(targets@.len(), outcomes@.len());
    proof {
        assert(indices(targets@).len() == targets@.len());
    }
    proof {
        assert(outcomes.deep_view() =~= results);
    }
    let mut k: usize = 0;
    for outcome in it: outcomes
        invariant
            it.seq() == whole,
            results == outcome_views(whole),
            k == least(targets@.len(), it.index() as nat),
            indices(targets@) == burst_targets(tracks, page),
            forall|j: int| 0 <= j < targets@.len() ==> (#[trigger] targets@[j]) < tracks.len(),
            queue@.tracks.len() == tracks.len(),
            queue@.tracks == applied_upto(tracks, indices(targets@), results, k as nat),
            queue@.looping == old(queue)@.looping,
    {
        if k < targets.len() {
            proof {
                assert(results[k as int] == outcome.deep_view());
                assert(indices(targets@)[k as int] == targets@[k as int]);
            }
            queue.resolve_at(targets[k], outcome);
            k += 1;
        }
    }
    proof {
        assert(indices(targets@).len() == targets@.len());
        assert(k == limit);
    }
}

/// When every search of a burst has ended, each target has had just its
/// own attempt, and every other track is as it was.
pub proof fn lemma_burst_complete(
    tracks: Seq<TrackView>,
    page: u32,
    outcomes: Seq<Option<SearchResultView>>,
)
    requires
        outcomes.len() == burst_targets(tracks, page).len(),
    ensures
        after_burst(tracks, page, outcomes).len() == tracks.len(),
        forall|k: int|
            0 <= k < outcomes.len() ==> after_burst(tracks, page, outcomes)[
            #[trigger] burst_targets(tracks, page)[k]] == tracks[burst_targets(
                tracks,
                page,
            )[k]].resolved_with(outcomes[k]),
        forall|i: int|
            0 <= i < tracks.len() && !burst_targets(tracks, page).contains(i)
                ==> #[trigger] after_burst(tracks, page, outcomes)[i] == tracks[i],
{
    let targets = burst_targets(tracks, page);
    if window_start(page) <= tracks.len() {
        lemma_targets(tracks, window_start(page), window_end(tracks.len(), page));
    } else {
        lemma_targets(tracks, window_start(page), 0);
    }
    lemma_applied(tracks, targets, outcomes, outcomes.len());
}

/// After a burst in which every search has found something, no track of
/// the page wants a search any more.
pub proof fn lemma_burst_settles(
    tracks: Seq<TrackView>,
    page: u32,
    outcomes: Seq<Option<SearchResultView>>,
)
    requires
        outcomes.len() == burst_targets(tracks, page).len(),
        forall|k: int| 0 <= k < outcomes.len() ==> answered(#[trigger] outcomes[k]),
    ensures
        burst_targets(after_burst(tracks, page, outcomes), page).len() == 0,
{
    let targets = burst_targets(tracks, page);
    let after = after_burst(tracks, page, outcomes);
    let start = window_start(page);
    let end = window_end(tracks.len(), page);
    lemma_burst_complete(tracks, page, outcomes);
    let n = if start <= tracks.len() {
        end
    } else {
        0
    };
    lemma_targets(tracks, start, n);
    lemma_targets(after, start, n);
    assert(targets_upto(tracks, start, n) == targets);
    assert(targets_upto(after, start, n) == burst_targets(after, page));
    let left = burst_targets(after, page);
    if left.len() > 0 {
        let i = left[0];
        assert(after[i].unresolved());
        if targets.contains(i) {
            let k = choose|k: int| 0 <= k < targets.len() && targets[k] == i;
            assert(after[targets[k]] == tracks[targets[k]].resolved_with(outcomes[k]));
            assert(answered(outcomes[k]));
        } else {
            assert(after[i] == tracks[i]);
            assert(tracks[i].unresolved());
        }
    }
}

/// Applying the first `n` outcomes to targets that rise strictly touches
/// just the first `n` targets.
proof fn lemma_applied(
    tracks: Seq<TrackView>,
    targets: Seq<int>,
    outcomes: Seq<Option<SearchResultView>>,
    n: nat,
)
    requires
        n <= targets.len(),
        n <= outcomes.len(),
        forall|k: int| 0 <= k < targets.len() ==> 0 <= (#[trigger] targets[k]) < tracks.len(),
        forall|k: int, l: int|
            0 <= k < l < targets.len() ==> (#[trigger] targets[k]) < (#[trigger] targets[l]),
    ensures
        applied_upto(tracks, targets, outcomes, n).len() == tracks.len(),
        forall|k: int|
            0 <= k < n ==> applied_upto(tracks, targets, outcomes, n)[
            #[trigger] targets[k]] == tracks[targets[k]].resolved_with(outcomes[k]),
        forall|i: int|
            0 <= i < tracks.len() && (forall|k: int| 0 <= k < n ==> targets[k] != i)
                ==> #[trigger] applied_upto(tracks, targets, outcomes, n)[i] == tracks[i],
    decreases n,
{
    if n > 0 {
        lemma_applied(tracks, targets, outcomes, (n - 1) as nat);
        let before = applied_upto(tracks, targets, outcomes, (n - 1) as nat);
        let index = targets[n - 1];
        assert(forall|k: int| 0 <= k < n - 1 ==> targets[k] != index);
        assert(before[index] == tracks[index]);
    }
}

/// The place within a track of `duration` seconds after `play_time`
/// seconds of playing, the track starting over at its end. Of a track
/// whose duration is not known, the play time itself.
pub open spec fn elapsed(play_time: u64, duration: u64) -> u64 {
    if duration == 0 {
        play_time
    } else {
        (play_time % duration) as u64
    }
}

/// The line of a track in the view: its title as a link to its source and
/// its playing time; for the track that plays, the place reached stands
/// before the playing time, written with as many characters.
pub open spec fn spec_format_track(
    title: Seq<char>,
    source_url: Seq<char>,
    duration: u64,
    play_time: Option<u64>,
) -> Seq<char> {
    let total = short_notation(duration as nat);
    let head = "**["@ + title + "]("@ + source_url + ")** | "@;
    match play_time {
        Some(p) => head + last_chars(full_notation(elapsed(p, duration) as nat), total.len())
            + "/"@ + total,
        None => head + total,
    }
}

/// Writes the line of a track in the view.
pub fn format_track(title: &str, source_url: &str, duration: u64, play_time: Option<u64>) -> (line:
    String)
    ensures
        line@ == spec_format_track(title@, source_url@, duration, play_time),
{
    let mut line = String::new();
    push_str(&mut line, "**[");
    push_str(&mut line, title);
    push_str(&mut line, "](");
    push_str(&mut line, source_url);
    push_str(&mut line, ")** | ");
    let total = format_duration(duration, None);
    match play_time {
        Some(p) => {
            let place = if duration == 0 {
                p
            } else {
                p % duration
            };
            let width = chars_of(total.as_str()).len();
            let reached = format_tail(place, width);
            push_str(&mut line, reached.as_str());
            push_str(&mut line, "/");
        },
        None => {},
    }
    push_str(&mut line, total.as_str());
    line
}

/// What the view shows of a track: its metadata (empty while a query has
/// no answer), and the play time where it is asked for.
pub fn extract_track_data(track: &Track, include_play_time: bool, play_time: Option<u64>) -> (data:
    (MiniMetadata, Option<u64>))
    ensures
        data.0@ == track@.summary(),
        data.1 == (if include_play_time {
            play_time
        } else {
            None
        }),
{
    (
        track.summary(),
        if include_play_time {
            play_time
        } else {
            None
        },
    )
}

/// The line of `track` in the view.
pub open spec fn track_line(track: TrackView, play_time: Option<u64>) -> Seq<char> {
    let m = track.summary();
    spec_format_track(m.title, m.source_url, m.duration, play_time)
}

/// The lines of the tracks from `start` up to `n`.
pub open spec fn window_lines(tracks: Seq<TrackView>, start: nat, n: nat) -> Seq<Seq<char>>
    decreases n,
{
    if n <= start {
        Seq::empty()
    } else {
        window_lines(tracks, start, (n - 1) as nat).push(track_line(tracks[n - 1], None))
    }
}

/// The lines of `page`: the current track with its play time, then the
/// tracks of the page. An empty queue has no lines.
pub open spec fn page_lines(tracks: Seq<TrackView>, page: u32, play_time: Option<u64>) -> Seq<
    Seq<char>,
> {
    if tracks.len() == 0 {
        Seq::empty()
    } else {
        seq![track_line(tracks[0], play_time)] + window_lines(
            tracks,
            window_start(page),
            window_end(tracks.len(), page),
        )
    }
}

/// The text under the view: page and pages, number of tracks, loop flag.
pub open spec fn spec_footer(page: u32, last_page: u32, tracks_len: nat, is_looping: bool) -> Seq<
    char,
> {
    "Page: "@ + decimal((page + 1) as nat) + "/"@ + decimal(
        if last_page >= 1 {
            last_page as nat
        } else {
            1
        },
    ) + "  tracks: "@ + decimal(tracks_len) + "  loop: "@ + truth(is_looping)
}

/// The numbered lines of `lines[1..n]`; the numbers go on from page to
/// page.
pub open spec fn numbered(lines: Seq<Seq<char>>, page: u32, n: nat) -> Seq<char>
    decreases n,
{
    if n <= 1 {
        Seq::empty()
    } else {
        numbered(lines, page, (n - 1) as nat) + decimal((n - 1 + page * TRACKS_PER_PAGE) as nat)
            + ". "@ + lines[n - 1] + "\n"@
    }
}

/// The text of the field of upcoming tracks.
pub open spec fn spec_next_up(lines: Seq<Seq<char>>, page: u32) -> Seq<char> {
    if lines.len() > 1 {
        numbered(lines, page, lines.len())
    } else {
        "*Nothing*"@
    }
}

/// The text of the field of the current track.
pub open spec fn spec_currently_playing(lines: Seq<Seq<char>>) -> Seq<char> {
    if lines.len() > 0 {
        lines[0]
    } else {
        "*Nothing*"@
    }
}

/// The view of one page of the queue, as texts.
#[derive(Debug)]
pub struct QueueEmbed {
    pub title: String,
    pub currently_playing: String,
    pub next_up: String,
    pub footer: String,
}

impl QueueEmbed {
    /// Whether this is the view of the lines `lines` on `page`.
    pub open spec fn shows(
        self,
        lines: Seq<Seq<char>>,
        page: u32,
        last_page: u32,
        tracks_len: nat,
        is_looping: bool,
    ) -> bool {
        &&& self.title@ == "Queue"@
        &&& self.currently_playing@ == spec_currently_playing(lines)
        &&& self.next_up@ == spec_next_up(lines, page)
        &&& self.footer@ == spec_footer(page, last_page, tracks_len, is_looping)
    }
}

/// Builds the view from the lines of a page: the first line is the
/// current track, the others are numbered.
pub fn create_queue_embed(
    tracks: Vec<String>,
    page: u32,
    last_page: u32,
    tracks_len: usize,
    is_looping: bool,
) -> (embed: QueueEmbed)
    ensures
        embed.shows(tracks.deep_view(), page, last_page, tracks_len as nat, is_looping),
{
    let mut footer = String::new();
    push_str(&mut footer, "Page: ");
    push_decimal(&mut footer, page as u128 + 1);
    push_str(&mut footer, "/");
    push_decimal(
        &mut footer,
        if last_page >= 1 {
            last_page as u128
        } else {
            1
        },
    );
    push_str(&mut footer, "  tracks: ");
    push_decimal(&mut footer, tracks_len as u128);
    push_str(&mut footer, "  loop: ");
    if is_looping {
        push_str(&mut footer, "true");
    } else {
        push_str(&mut footer, "false");
    }
    let mut currently_playing = String::new();
    if tracks.len() > 0 {
        push_str(&mut currently_playing, tracks[0].as_str());
    } else {
        push_str(&mut currently_playing, "*Nothing*");
    }
    let mut next_up = String::new();
    if tracks.len() > 1 {
        let mut i: usize = 1;
        while i < tracks.len()
            invariant
                1 <= i <= tracks@.len(),
                next_up@ == numbered(tracks.deep_view(), page, i as nat),
            decreases tracks@.len() - i,
        {
            let ghost before = next_up@;
            assert(TRACKS_PER_PAGE == 6);
            let offset: u128 = (page as u128) * 6;
            assert(offset == page * TRACKS_PER_PAGE);
            push_decimal(&mut next_up, i as u128 + offset);
            push_str(&mut next_up, ". ");
            push_str(&mut next_up, tracks[i].as_str());
            push_str(&mut next_up, "\n");
            proof {
                assert(tracks.deep_view()[i as int] == tracks@[i as int]@);
                assert(next_up@ =~= numbered(tracks.deep_view(), page, (i + 1) as nat));
            }
            i += 1;
        }
    } else {
        push_str(&mut next_up, "*Nothing*");
    }
    QueueEmbed { title: "Queue".to_owned(), currently_playing, next_up, footer }
}

/// Says which controls of the view of `page` cannot be used: the way back
/// on the first page, the way on on the last.
pub fn create_buttons(page: u32, last_page: u32) -> (controls: Controls)
    ensures
        controls == (Controls { prev_disabled: page == 0, next_disabled: page >= last_page }),
{
    Controls { prev_disabled: page == 0, next_disabled: page >= last_page }
}

/// Renders `page` of the queue after the burst for it has ended:
/// `outcomes` are the outcomes of its searches in the order of
/// [`search_burst`], `play_time` the seconds that the current track has
/// played. Returns the view and the last page of the queue.
pub fn assemble_embed(
    queue: &mut Queue,
    page: u32,
    outcomes: Vec<Option<SearchResult>>,
    play_time: Option<u64>,
) -> (r: (QueueEmbed, u32))
    ensures
        final(queue)@.tracks == after_burst(old(queue)@.tracks, page, outcomes.deep_view()),
        final(queue)@.looping == old(queue)@.looping,
        r.1 == spec_last_page(final(queue)@.tracks.len(), TRACKS_PER_PAGE as nat),
        r.0.shows(
            page_lines(final(queue)@.tracks, page, play_time),
            page,
            r.1,
            final(queue)@.tracks.len(),
            final(queue)@.looping == LoopState::RepeatCurrent,
        ),
{
    complete_burst(queue, page, outcomes);
    let len = queue.len();
    let mut lines: Vec<String> = Vec::new();
    proof {
        assert(lines.deep_view() =~= Seq::<Seq<char>>::empty());
    }
    match queue.current() {
        Some(track) => {
            let data = extract_track_data(track, true, play_time);
            lines.push(
                format_track(data.0.title.as_str(), data.0.source_url.as_str(), data.0.duration, data.1),
            );
            proof {
                assert(lines.deep_view() =~= seq![track_line(queue@.tracks[0], play_time)]);
            }
            assert(TRACKS_PER_PAGE == 6);
            let start: u64 = 1 + 6 * (page as u64);
            if start <= len as u64 {
                let first = start as usize;
                let end: usize = if len - first >= TRACKS_PER_PAGE as usize {
                    first + TRACKS_PER_PAGE as usize
                } else {
                    len
                };
                let mut i: usize = first;
                proof {
                    assert(lines.deep_view() =~= seq![track_line(queue@.tracks[0], play_time)]
                        + window_lines(queue@.tracks, first as nat, i as nat));
                }
                while i < end
                    invariant
                        first <= i <= end <= len,
                        len == queue@.tracks.len(),
                        len > 0,
                        lines.deep_view() == seq![track_line(queue@.tracks[0], play_time)]
                            + window_lines(queue@.tracks, first as nat, i as nat),
                    decreases end - i,
                {
                    let ghost before = lines.deep_view();
                    match queue.get(i) {
                        Some(t) => {
                            let data = extract_track_data(t, false, None);
                            lines.push(
                                format_track(
                                    data.0.title.as_str(),
                                    data.0.source_url.as_str(),
                                    data.0.duration,
                                    data.1,
                                ),
                            );
                            proof {
                                assert(lines.deep_view() =~= before.push(
                                    track_line(queue@.tracks[i as int], None),
                                ));
                            }
                        },
                        None => {},
                    }
                    i += 1;
                }
            }
        },
        None => {},
    }
    let last = last_page(len, TRACKS_PER_PAGE);
    let is_looping = match queue.loop_state() {
        LoopState::RepeatCurrent => true,
        LoopState::Off => false,
    };
    (create_queue_embed(lines, page, last, len, is_looping), last)
}

/// Renders the page that `pager` shows, with the controls that belong to
/// it: see [`assemble_embed`] and [`create_buttons`].
pub fn update_queue_embed(
    pager: &PagerSession,
    queue: &mut Queue,
    outcomes: Vec<Option<SearchResult>>,
    play_time: Option<u64>,
) -> (r: (QueueEmbed, Controls))
    ensures
        final(queue)@.tracks == after_burst(
            old(queue)@.tracks,
            pager@.page,
            outcomes.deep_view(),
        ),
        final(queue)@.looping == old(queue)@.looping,
        r.0.shows(
            page_lines(final(queue)@.tracks, pager@.page, play_time),
            pager@.page,
            spec_last_page(final(queue)@.tracks.len(), TRACKS_PER_PAGE as nat) as u32,
            final(queue)@.tracks.len(),
            final(queue)@.looping == LoopState::RepeatCurrent,
        ),
        r.1 == (Controls {
            prev_disabled: pager@.page == 0,
            next_disabled: pager@.page >= spec_last_page(
                final(queue)@.tracks.len(),
                TRACKS_PER_PAGE as nat,
            ),
        }),
{
    let page = pager.page();
    let (embed, last) = assemble_embed(queue, page, outcomes, play_time);
    (embed, create_buttons(page, last))
}

/// Opens a view of the queue at the time `now`: on the page asked for,
/// held within the pages of the queue, or on the first page.
pub fn queue(tracks: &Queue, page: Option<u32>, now: u64) -> (pager: PagerSession)
    ensures
        pager@.wf(),
        pager@.created_at == now,
        pager@.last_page == spec_last_page(tracks@.tracks.len(), TRACKS_PER_PAGE as nat),
        pager@.page == (match page {
            Some(p) => if p <= pager@.last_page {
                p
            } else {
                pager@.last_page
            },
            None => 0,
        }),
{
    PagerSession::new(page, tracks.len(), now)
}

} // verus!
