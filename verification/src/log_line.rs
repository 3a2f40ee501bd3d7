use vstd::prelude::*;
use vstd::string::StringSliceAdditionalSpecFns;
use vstd::utf8::encode_utf8;
use crate::text::push_char;

verus! {

/// Text colour, as `0xRRGGBB`, of log lines at level ERROR.
pub const ERROR_LOG_LINE_COLOR: u32 = 0xFF5555;

/// Text colour, as `0xRRGGBB`, of log lines at level WARN.
pub const WARN_LOG_LINE_COLOR: u32 = 0xD5A30F;

/// Text colour, as `0xRRGGBB`, of log lines at level DEBUG.
pub const DEBUG_LOG_LINE_COLOR: u32 = 0x7AA2C8;

/// Text colour, as `0xRRGGBB`, of log lines at level TRACE.
pub const TRACE_LOG_LINE_COLOR: u32 = 0x888888;

/// The bytes that `u8::is_ascii_whitespace` accepts: space, tab, line feed,
/// form feed and carriage return.
pub open spec fn is_ascii_ws(b: u8) -> bool {
    b == 0x20u8 || b == 0x09u8 || b == 0x0Au8 || b == 0x0Cu8 || b == 0x0Du8
}

/// The first position at or after `i` that does not hold ASCII whitespace.
pub open spec fn skip_ws(s: Seq<u8>, i: int) -> int
    decreases s.len() - i,
{
    if 0 <= i < s.len() && is_ascii_ws(s[i]) {
        skip_ws(s, i + 1)
    } else {
        i
    }
}

/// The first position at or after `i` that holds ASCII whitespace, or the end.
pub open spec fn token_end(s: Seq<u8>, i: int) -> int
    decreases s.len() - i,
{
    if 0 <= i < s.len() && !is_ascii_ws(s[i]) {
        token_end(s, i + 1)
    } else {
        i
    }
}

/// The colour that belongs to a level word of the compact log format.
pub open spec fn level_color(word: Seq<u8>) -> Option<u32> {
    if word == error_word() {
        Some(ERROR_LOG_LINE_COLOR)
    } else if word == warn_word() {
        Some(WARN_LOG_LINE_COLOR)
    } else if word == debug_word() {
        Some(DEBUG_LOG_LINE_COLOR)
    } else if word == trace_word() {
        Some(TRACE_LOG_LINE_COLOR)
    } else {
        None
    }
}

/// The colour of a log line given as UTF-8 bytes: the line's first
/// whitespace-separated field must be a timestamp with a `T` at byte 10, and
/// its second field names the level.
pub open spec fn line_color(s: Seq<u8>) -> Option<u32> {
    let start = skip_ws(s, 0);
    let end = token_end(s, start);
    let level_start = skip_ws(s, end);
    let level_end = token_end(s, level_start);
    if end - start > 10 && s[start + 10] == 0x54u8 {
        level_color(s.subrange(level_start, level_end))
    } else {
        None
    }
}

proof fn lemma_skip_over(s: Seq<u8>, i: int, j: int)
    requires
        0 <= i <= j <= s.len(),
        forall|k: int| i <= k < j ==> is_ascii_ws(#[trigger] s[k]),
    ensures
        skip_ws(s, i) == skip_ws(s, j),
    decreases j - i,
{
    if i < j {
        lemma_skip_over(s, i + 1, j);
    }
}

proof fn lemma_token_over(s: Seq<u8>, i: int, j: int)
    requires
        0 <= i <= j <= s.len(),
        forall|k: int| i <= k < j ==> !is_ascii_ws(#[trigger] s[k]),
    ensures
        token_end(s, i) == token_end(s, j),
    decreases j - i,
{
    if i < j {
        lemma_token_over(s, i + 1, j);
    }
}

/// The bytes of `ERROR`.
pub open spec fn error_word() -> Seq<u8> {
    seq![0x45u8, 0x52u8, 0x52u8, 0x4Fu8, 0x52u8]
}

/// The bytes of `WARN`.
pub open spec fn warn_word() -> Seq<u8> {
    seq![0x57u8, 0x41u8, 0x52u8, 0x4Eu8]
}

/// The bytes of `DEBUG`.
pub open spec fn debug_word() -> Seq<u8> {
    seq![0x44u8, 0x45u8, 0x42u8, 0x55u8, 0x47u8]
}

/// The bytes of `TRACE`.
pub open spec fn trace_word() -> Seq<u8> {
    seq![0x54u8, 0x52u8, 0x41u8, 0x43u8, 0x45u8]
}

/// A line made of optional leading whitespace, a first field, whitespace, a
/// second field and either nothing or whitespace and more text is coloured by
/// its second field alone, and only when the first field is a timestamp with
/// a `T` at byte 10: ERROR, WARN, DEBUG and TRACE get their colours, any other
/// word (INFO among them) none; whatever follows the second field does not
/// matter.
pub proof fn lemma_line_color_by_columns(
    lead: Seq<u8>,
    stamp: Seq<u8>,
    gap: Seq<u8>,
    word: Seq<u8>,
    rest: Seq<u8>,
)
    requires
        forall|k: int| 0 <= k < lead.len() ==> is_ascii_ws(#[trigger] lead[k]),
        stamp.len() > 0,
        forall|k: int| 0 <= k < stamp.len() ==> !is_ascii_ws(#[trigger] stamp[k]),
        gap.len() > 0,
        forall|k: int| 0 <= k < gap.len() ==> is_ascii_ws(#[trigger] gap[k]),
        word.len() > 0,
        forall|k: int| 0 <= k < word.len() ==> !is_ascii_ws(#[trigger] word[k]),
        rest.len() > 0 ==> is_ascii_ws(rest[0]),
    ensures
        ({
            let line = lead + stamp + gap + word + rest;
            let timestamp = stamp.len() > 10 && stamp[10] == 0x54u8;
            &&& !timestamp ==> line_color(line) is None
            &&& timestamp && word == seq![0x45u8, 0x52u8, 0x52u8, 0x4Fu8, 0x52u8] ==> line_color(line) == Some(ERROR_LOG_LINE_COLOR)
            &&& timestamp && word == seq![0x57u8, 0x41u8, 0x52u8, 0x4Eu8] ==> line_color(line) == Some(WARN_LOG_LINE_COLOR)
            &&& timestamp && word == seq![0x44u8, 0x45u8, 0x42u8, 0x55u8, 0x47u8] ==> line_color(line) == Some(DEBUG_LOG_LINE_COLOR)
            &&& timestamp && word == seq![0x54u8, 0x52u8, 0x41u8, 0x43u8, 0x45u8] ==> line_color(line) == Some(TRACE_LOG_LINE_COLOR)
            &&& word != seq![0x45u8, 0x52u8, 0x52u8, 0x4Fu8, 0x52u8] && word != seq![
                0x57u8,
                0x41u8,
                0x52u8,
                0x4Eu8,
            ] && word != seq![0x44u8, 0x45u8, 0x42u8, 0x55u8, 0x47u8] && word != seq![
                0x54u8,
                0x52u8,
                0x41u8,
                0x43u8,
                0x45u8,
            ] ==> line_color(line) is None
        }),
{
    let line = lead + stamp + gap + word + rest;
    let a = lead.len() as int;
    let b = a + stamp.len();
    let c = b + gap.len();
    let d = c + word.len();
    assert forall|k: int| 0 <= k < a implies is_ascii_ws(#[trigger] line[k]) by {
        assert(line[k] == lead[k]);
    }
    assert forall|k: int| a <= k < b implies !is_ascii_ws(#[trigger] line[k]) by {
        assert(line[k] == stamp[k - a]);
    }
    assert forall|k: int| b <= k < c implies is_ascii_ws(#[trigger] line[k]) by {
        assert(line[k] == gap[k - b]);
    }
    assert forall|k: int| c <= k < d implies !is_ascii_ws(#[trigger] line[k]) by {
        assert(line[k] == word[k - c]);
    }
    lemma_skip_over(line, 0, a);
    assert(line[a] == stamp[0]);
    assert(skip_ws(line, 0) == a);
    lemma_token_over(line, a, b);
    assert(line[b] == gap[0]);
    assert(token_end(line, a) == b);
    lemma_skip_over(line, b, c);
    assert(line[c] == word[0]);
    assert(skip_ws(line, b) == c);
    lemma_token_over(line, c, d);
    if d < line.len() {
        assert(line[d] == rest[0]);
    }
    assert(token_end(line, c) == d);
    assert(line.subrange(c, d) =~= word);
    if stamp.len() > 10 {
        assert(line[a + 10] == stamp[10]);
    }
}

fn skip_whitespace(s: &[u8], i: usize) -> (j: usize)
    requires
        i <= s@.len(),
    ensures
        j == skip_ws(s@, i as int),
        i <= j <= s@.len(),
{
    let mut j = i;
    while j < s.len() && is_whitespace_byte(s[j])
        invariant
            i <= j <= s@.len(),
            skip_ws(s@, j as int) == skip_ws(s@, i as int),
        decreases s@.len() - j,
    {
        j = j + 1;
    }
    j
}

fn find_token_end(s: &[u8], i: usize) -> (j: usize)
    requires
        i <= s@.len(),
    ensures
        j == token_end(s@, i as int),
        i <= j <= s@.len(),
{
    let mut j = i;
    while j < s.len() && !is_whitespace_byte(s[j])
        invariant
            i <= j <= s@.len(),
            token_end(s@, j as int) == token_end(s@, i as int),
        decreases s@.len() - j,
    {
        j = j + 1;
    }
    j
}

fn is_whitespace_byte(b: u8) -> (r: bool)
    ensures
        r == is_ascii_ws(b),
{
    b == 0x20 || b == 0x09 || b == 0x0A || b == 0x0C || b == 0x0D
}

fn word_equals(s: &[u8], start: usize, end: usize, word: &[u8]) -> (r: bool)
    requires
        start <= end <= s@.len(),
    ensures
        r == (s@.subrange(start as int, end as int) == word@),
{
    if end - start != word.len() {
        return false;
    }
    let mut k: usize = 0;
    while k < word.len()
        invariant
            end - start == word@.len(),
            start <= end <= s@.len(),
            0 <= k <= word@.len(),
            forall|m: int| 0 <= m < k ==> s@[start + m] == word@[m],
        decreases word@.len() - k,
    {
        if s[start + k] != word[k] {
            assert(s@.subrange(start as int, end as int)[k as int] != word@[k as int]);
            return false;
        }
        k = k + 1;
    }
    assert(s@.subrange(start as int, end as int) =~= word@);
    true
}

fn level_color_of(s: &[u8], start: usize, end: usize) -> (r: Option<u32>)
    requires
        start <= end <= s@.len(),
    ensures
        r == level_color(s@.subrange(start as int, end as int)),
{
    let error: [u8; 5] = [0x45, 0x52, 0x52, 0x4F, 0x52];
    let warn: [u8; 4] = [0x57, 0x41, 0x52, 0x4E];
    let debug: [u8; 5] = [0x44, 0x45, 0x42, 0x55, 0x47];
    let trace: [u8; 5] = [0x54, 0x52, 0x41, 0x43, 0x45];
    assert(error@ =~= seq![0x45u8, 0x52u8, 0x52u8, 0x4Fu8, 0x52u8]);
    assert(warn@ =~= seq![0x57u8, 0x41u8, 0x52u8, 0x4Eu8]);
    assert(debug@ =~= seq![0x44u8, 0x45u8, 0x42u8, 0x55u8, 0x47u8]);
    assert(trace@ =~= seq![0x54u8, 0x52u8, 0x41u8, 0x43u8, 0x45u8]);
    if word_equals(s, start, end, &error) {
        Some(ERROR_LOG_LINE_COLOR)
    } else if word_equals(s, start, end, &warn) {
        Some(WARN_LOG_LINE_COLOR)
    } else if word_equals(s, start, end, &debug) {
        Some(DEBUG_LOG_LINE_COLOR)
    } else if word_equals(s, start, end, &trace) {
        Some(TRACE_LOG_LINE_COLOR)
    } else {
        None
    }
}

/// The colour in which the log viewer shows a line, chosen by the level
/// column of the compact log format; `None` for the default colour.
pub fn log_line_color(line: &str) -> (r: Option<u32>)
    ensures
        r == line_color(line.spec_bytes()),
{
    let bytes = line.as_bytes();
    let start = skip_whitespace(bytes, 0);
    let end = find_token_end(bytes, start);
    if end - start <= 10 || bytes[start + 10] != 0x54 {
        return None;
    }
    let level_start = skip_whitespace(bytes, end);
    let level_end = find_token_end(bytes, level_start);
    level_color_of(bytes, level_start, level_end)
}

/// One line of a log file with the colour it is shown in.
pub struct LogLineSpan {
    pub text: String,
    pub color: Option<u32>,
}

/// The texts of a sequence of spans.
pub open spec fn span_texts(spans: Seq<LogLineSpan>) -> Seq<Seq<char>> {
    spans.map_values(|sp: LogLineSpan| sp.text@)
}

/// `lines` cut `s` after each line feed, as `str::split_inclusive('\n')`
/// does: joined they give `s`, none is empty, each ends at its only line
/// feed, except that the last may have none.
pub open spec fn is_line_split(s: Seq<char>, lines: Seq<Seq<char>>) -> bool {
    &&& lines.flatten() == s
    &&& forall|i: int| 0 <= i < lines.len() ==> (#[trigger] lines[i]).len() > 0
    &&& forall|i: int, k: int|
        0 <= i < lines.len() && 0 <= k < lines[i].len() - 1 ==> #[trigger] lines[i][k] != '\n'
    &&& forall|i: int| 0 <= i < lines.len() - 1 ==> (#[trigger] lines[i]).last() == '\n'
}

proof fn lemma_line_split_rest(s: Seq<char>, lines: Seq<Seq<char>>)
    requires
        is_line_split(s, lines),
        lines.len() > 0,
    ensures
        s == lines[0] + lines.drop_first().flatten(),
        lines[0].len() <= s.len(),
        is_line_split(s.skip(lines[0].len() as int), lines.drop_first()),
{
    let rest = lines.drop_first();
    assert(lines.flatten() == lines.first() + rest.flatten());
    assert(s.skip(lines[0].len() as int) =~= rest.flatten());
    assert forall|i: int| 0 <= i < rest.len() implies (#[trigger] rest[i]).len() > 0 by {
        assert(rest[i] == lines[i + 1]);
    }
    assert forall|i: int, k: int| 0 <= i < rest.len() && 0 <= k < rest[i].len() - 1 implies #[trigger] rest[i][k]
        != '\n' by {
        assert(rest[i] == lines[i + 1]);
    }
    assert forall|i: int| 0 <= i < rest.len() - 1 implies (#[trigger] rest[i]).last() == '\n' by {
        assert(rest[i] == lines[i + 1]);
    }
}

/// There is only one way to cut a text into lines after each line feed: any
/// two line splits of the same text are equal.
pub proof fn lemma_line_split_unique(s: Seq<char>, a: Seq<Seq<char>>, b: Seq<Seq<char>>)
    requires
        is_line_split(s, a),
        is_line_split(s, b),
    ensures
        a == b,
    decreases s.len(),
{
    if a.len() == 0 || b.len() == 0 {
        if a.len() > 0 {
            lemma_line_split_rest(s, a);
            assert(b.flatten() =~= Seq::<char>::empty());
            assert(a[0].len() > 0);
        } else if b.len() > 0 {
            lemma_line_split_rest(s, b);
            assert(a.flatten() =~= Seq::<char>::empty());
            assert(b[0].len() > 0);
        } else {
            assert(a =~= b);
        }
    } else {
        lemma_line_split_rest(s, a);
        lemma_line_split_rest(s, b);
        let la = a[0].len() as int;
        let lb = b[0].len() as int;
        assert forall|k: int| 0 <= k < la implies s[k] == #[trigger] a[0][k] by {}
        assert forall|k: int| 0 <= k < lb implies s[k] == #[trigger] b[0][k] by {}
        if la < lb {
            if a.len() > 1 {
                assert(a[0].last() == '\n');
                assert(s[la - 1] == a[0][la - 1]);
                assert(b[0][la - 1] != '\n');
            } else {
                assert(a.drop_first().flatten() =~= Seq::<char>::empty());
            }
        } else if lb < la {
            if b.len() > 1 {
                assert(b[0].last() == '\n');
                assert(s[lb - 1] == b[0][lb - 1]);
                assert(a[0][lb - 1] != '\n');
            } else {
                assert(b.drop_first().flatten() =~= Seq::<char>::empty());
            }
        }
        assert(la == lb);
        assert(a[0] =~= b[0]);
        lemma_line_split_unique(s.skip(la), a.drop_first(), b.drop_first());
        assert(a =~= seq![a[0]] + a.drop_first());
        assert(b =~= seq![b[0]] + b.drop_first());
    }
}

/// Each span is coloured by its line's level column.
pub open spec fn spans_colored(spans: Seq<LogLineSpan>) -> bool {
    forall|i: int|
        0 <= i < spans.len() ==> (#[trigger] spans[i]).color == line_color(
            encode_utf8(spans[i].text@),
        )
}

/// Cuts a text into lines, each keeping its line feed, and colours each line
/// by its level.
pub fn colored_lines(text: &str) -> (spans: Vec<LogLineSpan>)
    ensures
        is_line_split(text@, span_texts(spans@)),
        spans_colored(spans@),
{
    let mut spans: Vec<LogLineSpan> = Vec::new();
    let mut current = String::new();
    for c in it: text.chars()
        invariant
            it.seq() == text@,
            span_texts(spans@).flatten() + current@ == it.seq().take(it.index() as int),
            forall|k: int| 0 <= k < current@.len() ==> current@[k] != '\n',
            forall|i: int|
                0 <= i < spans@.len() ==> (#[trigger] span_texts(spans@)[i]).len() > 0
                    && span_texts(spans@)[i].last() == '\n',
            forall|i: int, k: int|
                0 <= i < spans@.len() && 0 <= k < span_texts(spans@)[i].len() - 1
                    ==> #[trigger] span_texts(spans@)[i][k] != '\n',
            spans_colored(spans@),
    {
        let ghost before = span_texts(spans@);
        push_char(&mut current, c);
        assert(it.seq().take(it.index() + 1) =~= it.seq().take(it.index() as int).push(c));
        if c == '\n' {
            let color = log_line_color(current.as_str());
            let ghost line = current@;
            spans.push(LogLineSpan { text: current, color });
            current = String::new();
            proof {
                assert(span_texts(spans@) =~= before.push(line));
                before.lemma_flatten_push(line);
            }
        }
    }
    assert(text@.take(text@.len() as int) =~= text@);
    if !current.as_str().is_empty() {
        let ghost before = span_texts(spans@);
        let ghost line = current@;
        let color = log_line_color(current.as_str());
        spans.push(LogLineSpan { text: current, color });
        proof {
            assert(span_texts(spans@) =~= before.push(line));
            before.lemma_flatten_push(line);
        }
    } else {
        assert(span_texts(spans@).flatten() + current@ =~= span_texts(spans@).flatten());
    }
    spans
}

} // verus!
