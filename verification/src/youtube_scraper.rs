//! Reading the first hit out of a result page of the video site.
//!
//! The page carries its data as text inside a script. The fields are found
//! by the keys that stand before them; nothing else of the page is read.

use crate::text::{chars_of, string_of};
use crate::track::{SearchResult, SearchResultView};
use vstd::prelude::*;
use vstd::string::StrSliceExecFns;

verus! {

/// Whether `needle` stands in `hay` at the index `i`.
pub open spec fn occurs_at(hay: Seq<char>, needle: Seq<char>, i: int) -> bool {
    &&& 0 <= i
    &&& i + needle.len() <= hay.len()
    &&& hay.subrange(i, i + needle.len()) == needle
}

/// Whether `needle` stands somewhere in `hay`.
pub open spec fn found(hay: Seq<char>, needle: Seq<char>) -> bool {
    exists|i: int| occurs_at(hay, needle, i)
}

/// Whether `i` is the first index at which `needle` stands in `hay`.
pub open spec fn first_at(hay: Seq<char>, needle: Seq<char>, i: int) -> bool {
    &&& occurs_at(hay, needle, i)
    &&& forall|j: int| 0 <= j < i ==> !occurs_at(hay, needle, j)
}

/// The first index at which `needle` stands in `hay`.
pub open spec fn position(hay: Seq<char>, needle: Seq<char>) -> int {
    choose|i: int| first_at(hay, needle, i)
}

/// `input` cut before the first place where `tag` stands: the rest from
/// the tag on, and the text before it. `None` where the tag stands nowhere.
pub open spec fn spec_take_until(input: Seq<char>, tag: Seq<char>) -> Option<
    (Seq<char>, Seq<char>),
> {
    if found(input, tag) {
        let i = position(input, tag);
        Some((input.skip(i), input.take(i)))
    } else {
        None
    }
}

/// There is one first index at most.
pub proof fn lemma_first_at_unique(hay: Seq<char>, needle: Seq<char>, i: int, j: int)
    requires
        first_at(hay, needle, i),
        first_at(hay, needle, j),
    ensures
        i == j,
{
}

/// Where `needle` stands first at `i`, the cut is made at `i`.
pub proof fn lemma_take_until_at(hay: Seq<char>, needle: Seq<char>, i: int)
    requires
        first_at(hay, needle, i),
    ensures
        spec_take_until(hay, needle) == Some((hay.skip(i), hay.take(i))),
{
    assert(occurs_at(hay, needle, i));
    lemma_first_at_unique(hay, needle, i, position(hay, needle));
}

/// Calls `nom::bytes::complete::take_until` with `tag` on `input`. As its
/// source shows, it looks for the first place where `tag` stands
/// (`str::find`) and splits the input there: the result holds the rest,
/// which starts with the tag, and the text before it. Where the tag stands
/// nowhere it reports an error, which is `None` here.
#[verifier::external_body]
fn take_until<'a>(tag: &str, input: &'a str) -> (r: Option<(&'a str, &'a str)>)
    ensures
        match r {
            Some((rest, head)) => first_at(input@, tag@, head@.len() as int) && head@ + rest@
                == input@,
            None => !found(input@, tag@),
        },
{
    nom::bytes::complete::take_until::<_, _, nom::error::Error<&str>>(tag)(input).ok()
}

/// Cuts `input` before the first place where `tag` stands.
pub fn cut_before<'a>(tag: &str, input: &'a str) -> (r: Option<(&'a str, &'a str)>)
    ensures
        r.deep_view() == spec_take_until(input@, tag@),
        r matches Some((rest, _)) ==> rest@.len() >= tag@.len(),
{
    let r = take_until(tag, input);
    proof {
        match r {
            Some((rest, head)) => {
                let i = head@.len() as int;
                lemma_take_until_at(input@, tag@, i);
                assert(input@.take(i) =~= head@);
                assert(input@.skip(i) =~= rest@);
                assert(input@.len() == head@.len() + rest@.len());
            },
            None => {},
        }
    }
    r
}

/// `input` without its first character.
fn behind_first<'a>(input: &'a str) -> (rest: &'a str)
    requires
        input@.len() >= 1,
    ensures
        rest@ == input@.skip(1),
{
    let n = input.unicode_len();
    let rest = input.substring_char(1, n);
    proof {
        assert(rest@ =~= input@.skip(1));
    }
    rest
}

/// The rest of a cut with its first character left out.
pub open spec fn behind(cut: Option<(Seq<char>, Seq<char>)>) -> Option<Seq<char>> {
    match cut {
        Some((rest, _)) => Some(rest.skip(1)),
        None => None,
    }
}

/// The text between the first quotation mark of `input` and the next one
/// that stands before `close`: the rest from that mark on, and the text.
pub open spec fn spec_quoted(input: Seq<char>, close: Seq<char>) -> Option<(Seq<char>, Seq<char>)> {
    match behind(spec_take_until(input, "\""@)) {
        Some(inner) => spec_take_until(inner, close),
        None => None,
    }
}

/// What [`parse_quotes`] gives.
pub open spec fn spec_parse_quotes(input: Seq<char>) -> Option<(Seq<char>, Seq<char>)> {
    spec_quoted(input, "\""@)
}

/// What [`parse_bracket_quotes`] gives.
pub open spec fn spec_parse_bracket_quotes(input: Seq<char>) -> Option<(Seq<char>, Seq<char>)> {
    spec_quoted(input, "\"}"@)
}

/// What [`parse_colon`] gives: the rest behind the first colon, and the
/// text before it.
pub open spec fn spec_parse_colon(input: Seq<char>) -> Option<(Seq<char>, Seq<char>)> {
    match spec_take_until(input, ":"@) {
        Some((rest, head)) => Some((rest.skip(1), head)),
        None => None,
    }
}

fn quoted<'a>(input: &'a str, close: &str) -> (r: Option<(&'a str, &'a str)>)
    ensures
        r.deep_view() == spec_quoted(input@, close@),
{
    proof {
        reveal_strlit("\"");
    }
    match cut_before("\"", input) {
        Some((rest, _)) => {
            cut_before(close, behind_first(rest))
        },
        None => None,
    }
}

/// Reads the text between the first two quotation marks of `input`. The
/// result holds the rest from the closing mark on, and the text. `None`
/// where `input` has no two quotation marks.
pub fn parse_quotes(input: &str) -> (r: Option<(&str, &str)>)
    ensures
        r.deep_view() == spec_parse_quotes(input@),
{
    quoted(input, "\"")
}

/// Reads the text between the first quotation mark of `input` and the
/// first quotation mark behind it that a closing brace follows.
pub fn parse_bracket_quotes(input: &str) -> (r: Option<(&str, &str)>)
    ensures
        r.deep_view() == spec_parse_bracket_quotes(input@),
{
    quoted(input, "\"}")
}

/// Cuts `input` at its first colon. The result holds the rest behind the
/// colon, and the text before it.
pub fn parse_colon(input: &str) -> (r: Option<(&str, &str)>)
    ensures
        r.deep_view() == spec_parse_colon(input@),
{
    proof {
        reveal_strlit(":");
    }
    match cut_before(":", input) {
        Some((rest, head)) => {
            Some((behind_first(rest), head))
        },
        None => None,
    }
}

/// `text` with each backslash that a quotation mark follows left out.
pub open spec fn unescaped(text: Seq<char>) -> Seq<char>
    decreases text.len(),
{
    if text.len() == 0 {
        Seq::empty()
    } else if text.len() >= 2 && text[0] == '\\' && text[1] == '"' {
        seq!['"'] + unescaped(text.skip(2))
    } else {
        seq![text[0]] + unescaped(text.skip(1))
    }
}

/// Takes the backslashes before quotation marks out of `text`.
pub fn unescape(text: &str) -> (plain: String)
    ensures
        plain@ == unescaped(text@),
{
    let chars = chars_of(text);
    let mut plain = String::new();
    let mut i: usize = 0;
    proof {
        assert(chars@.skip(0) =~= chars@);
    }
    while i < chars.len()
        invariant
            i <= chars@.len(),
            chars@ == text@,
            plain@ + unescaped(chars@.skip(i as int)) == unescaped(text@),
        decreases chars@.len() - i,
    {
        let ghost rest = chars@.skip(i as int);
        let ghost before = plain@;
        if chars[i] == '\\' && i + 1 < chars.len() && chars[i + 1] == '"' {
            plain.push('"');
            proof {
                assert(rest.skip(2) =~= chars@.skip(i + 2));
                assert(plain@ + unescaped(chars@.skip(i + 2)) =~= before + unescaped(rest));
            }
            i += 2;
        } else {
            plain.push(chars[i]);
            proof {
                assert(rest.skip(1) =~= chars@.skip(i + 1));
                assert(plain@ + unescaped(chars@.skip(i + 1)) =~= before + unescaped(rest));
            }
            i += 1;
        }
    }
    proof {
        assert(plain@ + unescaped(chars@.skip(i as int)) =~= plain@);
    }
    plain
}

/// The rest of a cut.
pub open spec fn rest_of(cut: Option<(Seq<char>, Seq<char>)>) -> Option<Seq<char>> {
    match cut {
        Some((rest, _)) => Some(rest),
        None => None,
    }
}

/// What [`parse_title`] gives: behind the key `"title":` and then the key
/// `"text":`, behind the next colon, the text in quotation marks up to the
/// mark that a closing brace follows, without the backslashes before
/// quotation marks.
pub open spec fn spec_parse_title(input: Seq<char>) -> Option<(Seq<char>, Seq<char>)> {
    match rest_of(spec_take_until(input, "\"title\":"@)) {
        None => None,
        Some(a) => match rest_of(spec_take_until(a, "\"text\":"@)) {
            None => None,
            Some(b) => match rest_of(spec_parse_colon(b)) {
                None => None,
                Some(c) => match spec_parse_bracket_quotes(c) {
                    None => None,
                    Some((rest, text)) => Some((rest, unescaped(text))),
                },
            },
        },
    }
}

/// What [`parse_video_id`] gives: behind the key `"videoId":` and the
/// next colon, the text between quotation marks.
pub open spec fn spec_parse_video_id(input: Seq<char>) -> Option<(Seq<char>, Seq<char>)> {
    match rest_of(spec_take_until(input, "\"videoId\":"@)) {
        None => None,
        Some(a) => match rest_of(spec_parse_colon(a)) {
            None => None,
            Some(b) => spec_parse_quotes(b),
        },
    }
}

/// What [`parse_duration_text`] gives: behind the key `"lengthText":` and
/// then the key `"simpleText":`, behind the next colon, the text between
/// quotation marks.
pub open spec fn spec_parse_duration_text(input: Seq<char>) -> Option<(Seq<char>, Seq<char>)> {
    match rest_of(spec_take_until(input, "\"lengthText\":"@)) {
        None => None,
        Some(a) => match rest_of(spec_take_until(a, "\"simpleText\":"@)) {
            None => None,
            Some(b) => match rest_of(spec_parse_colon(b)) {
                None => None,
                Some(c) => spec_parse_quotes(c),
            },
        },
    }
}

/// Reads the title of the first hit. The result holds the rest behind the
/// title, and the title.
pub fn parse_title(input: &str) -> (r: Option<(&str, String)>)
    ensures
        r.deep_view() == spec_parse_title(input@),
{
    let a = match cut_before("\"title\":", input) {
        Some((rest, _)) => rest,
        None => {
            return None;
        },
    };
    let b = match cut_before("\"text\":", a) {
        Some((rest, _)) => rest,
        None => {
            return None;
        },
    };
    let c = match parse_colon(b) {
        Some((rest, _)) => rest,
        None => {
            return None;
        },
    };
    match parse_bracket_quotes(c) {
        Some((rest, text)) => Some((rest, unescape(text))),
        None => None,
    }
}

/// Reads the id of the first hit. The result holds the rest behind the
/// id, and the id.
pub fn parse_video_id(input: &str) -> (r: Option<(&str, &str)>)
    ensures
        r.deep_view() == spec_parse_video_id(input@),
{
    let a = match cut_before("\"videoId\":", input) {
        Some((rest, _)) => rest,
        None => {
            return None;
        },
    };
    let b = match parse_colon(a) {
        Some((rest, _)) => rest,
        None => {
            return None;
        },
    };
    parse_quotes(b)
}

/// Reads the playing time of the first hit as the page writes it. The
/// result holds the rest behind it, and the text.
pub fn parse_duration_text(input: &str) -> (r: Option<(&str, &str)>)
    ensures
        r.deep_view() == spec_parse_duration_text(input@),
{
    let a = match cut_before("\"lengthText\":", input) {
        Some((rest, _)) => rest,
        None => {
            return None;
        },
    };
    let b = match cut_before("\"simpleText\":", a) {
        Some((rest, _)) => rest,
        None => {
            return None;
        },
    };
    let c = match parse_colon(b) {
        Some((rest, _)) => rest,
        None => {
            return None;
        },
    };
    parse_quotes(c)
}

/// Whether `c` is a decimal digit.
pub open spec fn is_digit(c: char) -> bool {
    '0' <= c <= '9'
}

/// The number that the digit `c` writes.
pub open spec fn digit_value(c: char) -> nat {
    (c as int - 48) as nat
}

/// The number that the digits `s` write; `None` where `s` is empty or
/// holds anything but digits.
pub open spec fn digits_value(s: Seq<char>) -> Option<nat>
    decreases s.len(),
{
    if s.len() == 0 {
        None
    } else if !is_digit(s.last()) {
        None
    } else if s.len() == 1 {
        Some(digit_value(s[0]))
    } else {
        match digits_value(s.drop_last()) {
            Some(v) => Some(v * 10 + digit_value(s.last())),
            None => None,
        }
    }
}

/// The number that one section of a playing time writes: digits, with a
/// plus sign before them or without. A section that writes no number, or
/// one above `u64::MAX`, counts as zero.
pub open spec fn section_value(s: Seq<char>) -> nat {
    let body = if s.len() > 0 && s[0] == '+' {
        s.skip(1)
    } else {
        s
    };
    match digits_value(body) {
        Some(v) => if v <= u64::MAX {
            v
        } else {
            0
        },
        None => 0,
    }
}

/// The sections of `s` between the separators `sep`; a text without
/// separator is one section.
pub open spec fn split(s: Seq<char>, sep: char) -> Seq<Seq<char>>
    decreases s.len(),
{
    if s.len() == 0 {
        seq![Seq::empty()]
    } else {
        let before = split(s.drop_last(), sep);
        if s.last() == sep {
            before.push(Seq::empty())
        } else {
            before.drop_last().push(before.last().push(s.last()))
        }
    }
}

/// The seconds that sections of a playing time come to: the last section
/// counts seconds, each section before it sixty times the unit of the
/// next.
pub open spec fn seconds_of(sections: Seq<Seq<char>>) -> nat
    decreases sections.len(),
{
    if sections.len() == 0 {
        0
    } else {
        section_value(sections.last()) + 60 * seconds_of(sections.drop_last())
    }
}

/// What [`string_to_duration`] gives: the seconds of the sections between
/// the colons of `text`, and `u64::MAX` where they come to more.
pub open spec fn spec_string_to_duration(text: Seq<char>) -> u64 {
    let total = seconds_of(split(text, ':'));
    if total <= u64::MAX {
        total as u64
    } else {
        u64::MAX
    }
}

proof fn lemma_split_nonempty(s: Seq<char>, sep: char)
    ensures
        split(s, sep).len() >= 1,
    decreases s.len(),
{
    if s.len() > 0 {
        lemma_split_nonempty(s.drop_last(), sep);
    }
}

/// A text that digits write has only digits, and each start of it writes a
/// number that is no larger.
proof fn lemma_digits_prefix(s: Seq<char>, k: int)
    requires
        digits_value(s) is Some,
        1 <= k <= s.len(),
    ensures
        digits_value(s.take(k)) is Some,
        digits_value(s.take(k))->0 <= digits_value(s)->0,
        is_digit(s[k - 1]),
    decreases s.len(),
{
    if k == s.len() {
        assert(s.take(k) =~= s);
    } else {
        assert(s.drop_last().take(k) =~= s.take(k));
        lemma_digits_prefix(s.drop_last(), k);
    }
}

/// Reads the number of one section: see [`section_value`].
pub fn parse_section(section: &Vec<char>) -> (value: u64)
    ensures
        value == section_value(section@),
{
    let n = section.len();
    let start: usize = if n > 0 && section[0] == '+' {
        1
    } else {
        0
    };
    let ghost body = if start == 1 {
        section@.skip(1)
    } else {
        section@
    };
    proof {
        assert(section@.skip(0) =~= section@);
    }
    if start == n {
        return 0;
    }
    let mut acc: u64 = 0;
    let mut i: usize = start;
    while i < n
        invariant
            start <= i <= n,
            n == section@.len(),
            body == section@.skip(start as int),
            section_value(section@) == (match digits_value(body) {
                Some(v) => if v <= u64::MAX {
                    v
                } else {
                    0
                },
                None => 0,
            }),
            body.len() == n - start,
            i > start ==> digits_value(body.take(i - start)) == Some(acc as nat),
            i == start ==> acc == 0,
        decreases n - i,
    {
        let c = section[i];
        let ghost k = i - start;
        proof {
            assert(body[k] == c);
            assert(body.take(k + 1).drop_last() =~= body.take(k));
            assert(body.take(k + 1).last() == c);
        }
        if !(c >= '0' && c <= '9') {
            proof {
                if digits_value(body) is Some {
                    lemma_digits_prefix(body, k + 1);
                }
            }
            return 0;
        }
        let d: u64 = (c as u32 - 48) as u64;
        if acc > (u64::MAX - d) / 10 {
            proof {
                assert(acc * 10 + d > u64::MAX);
                assert(digits_value(body.take(k + 1)) == Some((acc * 10 + d) as nat));
                if digits_value(body) is Some {
                    lemma_digits_prefix(body, k + 1);
                }
            }
            return 0;
        }
        proof {
            assert(digits_value(body.take(k + 1)) == Some((acc * 10 + d) as nat));
        }
        acc = acc * 10 + d;
        i += 1;
    }
    proof {
        assert(body.take(body.len() as int) =~= body);
    }
    acc
}

/// The seconds so far with a further section behind them, held at
/// `u64::MAX`.
fn shifted(total: u64, value: u64) -> (next: u64)
    ensures
        next == (if total * 60 + value <= u64::MAX {
            total * 60 + value
        } else {
            u64::MAX as int
        }),
{
    let wide: u128 = (total as u128) * 60 + (value as u128);
    if wide <= u64::MAX as u128 {
        wide as u64
    } else {
        u64::MAX
    }
}

/// Reads a playing time written as `H:M:S`, `M:S` or `S`, with any number
/// of sections: the last one counts seconds, each one before it sixty
/// times the unit of the next. A section that writes no number counts as
/// zero. The result is held at `u64::MAX`.
pub fn string_to_duration(input: &str) -> (secs: u64)
    ensures
        secs == spec_string_to_duration(input@),
{
    let chars = chars_of(input);
    let mut total: u64 = 0;
    let mut current: Vec<char> = Vec::new();
    let mut i: usize = 0;
    proof {
        assert(chars@.take(0) =~= Seq::<char>::empty());
        assert(split(chars@.take(0), ':') =~= seq![Seq::<char>::empty()]);
        assert(split(chars@.take(0), ':').drop_last() =~= Seq::<Seq<char>>::empty());
    }
    while i < chars.len()
        invariant
            i <= chars@.len(),
            chars@ == input@,
            split(chars@.take(i as int), ':').len() >= 1,
            current@ == split(chars@.take(i as int), ':').last(),
            total as nat == (if seconds_of(split(chars@.take(i as int), ':').drop_last())
                <= u64::MAX {
                seconds_of(split(chars@.take(i as int), ':').drop_last())
            } else {
                u64::MAX as nat
            }),
        decreases chars@.len() - i,
    {
        let c = chars[i];
        let ghost before = split(chars@.take(i as int), ':');
        let ghost after = split(chars@.take(i + 1), ':');
        proof {
            assert(chars@.take(i + 1).drop_last() =~= chars@.take(i as int));
            assert(chars@.take(i + 1).last() == c);
            lemma_split_nonempty(chars@.take(i + 1), ':');
        }
        if c == ':' {
            let value = parse_section(&current);
            proof {
                assert(after == before.push(Seq::<char>::empty()));
                assert(after.drop_last() =~= before);
                assert(before.last() == current@);
                assert(seconds_of(before) == section_value(current@) + 60 * seconds_of(
                    before.drop_last(),
                ));
            }
            total = shifted(total, value);
            current = Vec::new();
        } else {
            current.push(c);
            proof {
                assert(after == before.drop_last().push(before.last().push(c)));
                assert(after.drop_last() =~= before.drop_last());
            }
        }
        i += 1;
    }
    let value = parse_section(&current);
    proof {
        assert(chars@.take(chars@.len() as int) =~= chars@);
    }
    shifted(total, value)
}

/// Reads `selector` with `scraper::Selector::parse` and `page` with
/// `scraper::Html::parse_document`, and collects
/// `scraper::ElementRef::inner_html` of each element that `Html::select`
/// yields; `None` where `selector` is no selector. Nothing is claimed of
/// the result: the crate writes the attributes of an element out in an
/// order that may change from run to run.
#[verifier::external_body]
fn select_inner_html(page: &str, selector: &str) -> (r: Option<Vec<String>>) {
    let selector = scraper::Selector::parse(selector).ok()?;
    let document = scraper::Html::parse_document(page);
    Some(document.select(&selector).map(|element| element.inner_html()).collect())
}

/// The text by which the script that holds the page's data is known.
pub open spec fn data_marker() -> Seq<char> {
    "var ytInitialData = "@
}

/// The second part of a cut.
pub open spec fn text_of(cut: Option<(Seq<char>, Seq<char>)>) -> Option<Seq<char>> {
    match cut {
        Some((_, text)) => Some(text),
        None => None,
    }
}

/// What the data `html` tells of the first hit: its id; then, read behind
/// the id where there is one, its title and its playing time.
pub open spec fn spec_scan_script(html: Seq<char>) -> SearchResultView {
    let id = spec_parse_video_id(html);
    let rest = match id {
        Some((rest, _)) => rest,
        None => html,
    };
    SearchResultView {
        title: text_of(spec_parse_title(rest)),
        video_id: text_of(id),
        duration: match spec_parse_duration_text(rest) {
            Some((_, text)) => Some(spec_string_to_duration(text)),
            None => None,
        },
    }
}

/// The first of `scripts` that holds the data marker.
pub open spec fn first_marked(scripts: Seq<Seq<char>>) -> Option<Seq<char>>
    decreases scripts.len(),
{
    if scripts.len() == 0 {
        None
    } else if found(scripts[0], data_marker()) {
        Some(scripts[0])
    } else {
        first_marked(scripts.drop_first())
    }
}

/// Nothing found.
pub open spec fn no_hit() -> SearchResultView {
    SearchResultView { title: None, video_id: None, duration: None }
}

/// What the scripts of a result page tell of the first hit: what the
/// first script with the data marker tells, and nothing without such a
/// script.
pub open spec fn spec_scan_scripts(scripts: Seq<Seq<char>>) -> SearchResultView {
    match first_marked(scripts) {
        Some(html) => spec_scan_script(html),
        None => no_hit(),
    }
}

/// Reads id, title and playing time of the first hit out of the page's
/// data.
pub fn scan_script(html: &str) -> (hit: SearchResult)
    ensures
        hit@ == spec_scan_script(html@),
{
    let mut rest = html;
    let video_id = match parse_video_id(html) {
        Some((behind, id)) => {
            rest = behind;
            Some(id.to_owned())
        },
        None => None,
    };
    let title = match parse_title(rest) {
        Some((_, title)) => Some(title),
        None => None,
    };
    let duration = match parse_duration_text(rest) {
        Some((_, text)) => Some(string_to_duration(text)),
        None => None,
    };
    SearchResult { title, video_id, duration }
}

/// Reads the first hit out of the scripts of a result page.
pub fn scan_scripts(scripts: &Vec<String>) -> (hit: SearchResult)
    ensures
        hit@ == spec_scan_scripts(scripts.deep_view()),
{
    let mut i: usize = 0;
    proof {
        assert(scripts.deep_view().skip(0) =~= scripts.deep_view());
    }
    while i < scripts.len()
        invariant
            i <= scripts@.len(),
            first_marked(scripts.deep_view()) == first_marked(scripts.deep_view().skip(i as int)),
        decreases scripts@.len() - i,
    {
        let ghost rest = scripts.deep_view().skip(i as int);
        proof {
            assert(rest[0] == scripts@[i as int]@);
            assert(rest.drop_first() =~= scripts.deep_view().skip(i + 1));
        }
        let html = scripts[i].as_str();
        if cut_before("var ytInitialData = ", html).is_some() {
            return scan_script(html);
        }
        i += 1;
    }
    SearchResult { title: None, video_id: None, duration: None }
}

/// Reads the first hit out of a result page of the video site: what
/// [`scan_scripts`] reads out of the scripts of the page. Which texts the
/// scripts of a page are is left to the reading of the page; whatever they
/// are, the hit is the one that they tell.
pub fn search(response: &str) -> (hit: SearchResult)
    ensures
        exists|scripts: Seq<Seq<char>>| hit@ == #[trigger] spec_scan_scripts(scripts),
{
    match select_inner_html(response, "script") {
        Some(scripts) => scan_scripts(&scripts),
        None => {
            let hit = SearchResult { title: None, video_id: None, duration: None };
            proof {
                assert(hit@ == spec_scan_scripts(Seq::<Seq<char>>::empty()));
            }
            hit
        },
    }
}

/// The address of the result page for `query`: blanks become plus signs.
pub open spec fn spec_search_url(query: Seq<char>) -> Seq<char> {
    "https://www.youtube.com/results?search_query="@ + Seq::new(
        query.len(),
        |i: int|
            if query[i] == ' ' {
                '+'
            } else {
                query[i]
            },
    )
}

/// Writes the address of the result page for `query`.
pub fn search_url(query: &str) -> (url: String)
    ensures
        url@ == spec_search_url(query@),
{
    let chars = chars_of(query);
    let mut url = String::new();
    crate::text::push_str(&mut url, "https://www.youtube.com/results?search_query=");
    let ghost head = url@;
    let mut i: usize = 0;
    while i < chars.len()
        invariant
            i <= chars@.len(),
            chars@ == query@,
            url@ == head + Seq::new(
                i as nat,
                |k: int|
                    if query@[k] == ' ' {
                        '+'
                    } else {
                        query@[k]
                    },
            ),
        decreases chars@.len() - i,
    {
        let ghost before = url@;
        let c = if chars[i] == ' ' {
            '+'
        } else {
            chars[i]
        };
        url.push(c);
        proof {
            assert(url@ =~= head + Seq::new(
                (i + 1) as nat,
                |k: int|
                    if query@[k] == ' ' {
                        '+'
                    } else {
                        query@[k]
                    },
            ));
        }
        i += 1;
    }
    url
}

} // verus!
