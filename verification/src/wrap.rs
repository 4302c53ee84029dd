//! The lines of a text as they are wrapped for a given width, by byte range,
//! and the scrolling that keeps the cursor's line in view.

use crate::text::count_spaces;
use crate::text::lemma_ascii_run_boundary;
use crate::text::space_run;
use crate::text::SPACE;
use std::borrow::Cow;
use std::ops::Range;
use textwrap::Options;
use textwrap::WrapAlgorithm;
use vstd::prelude::*;
use vstd::string::StringSliceAdditionalSpecFns;
use vstd::utf8::encode_utf8;
use vstd::utf8::is_char_boundary;

verus! {

broadcast use vstd::utf8::encode_utf8_valid_utf8;

/// The lines into which first-fit wrapping breaks a text for a width: the
/// byte offset at which each line begins and its length in bytes, without the
/// spaces and the line end that follow it. `None` where a line is not a part
/// of the text as it stands.
pub uninterp spec fn first_fit_lines(text: Seq<char>, width: u16) -> Option<Seq<(usize, usize)>>;

/// `textwrap::wrap` with the first-fit algorithm and default options
/// otherwise. Each line that borrows from `text` is given by the offset of
/// its first byte from that of `text` and by its length. A width of zero is
/// left out: for it an empty line can come back as a constant, not as a part
/// of `text`.
#[verifier::external_body]
fn wrap_first_fit(text: &str, width: u16) -> (lines: Option<Vec<(usize, usize)>>)
    requires
        width > 0,
    ensures
        first_fit_lines(text@, width) == match lines {
            Some(spans) => Some(spans@),
            None => None::<Seq<(usize, usize)>>,
        },
{
    let base = text.as_ptr() as usize;
    let options = Options::new(width as usize).wrap_algorithm(WrapAlgorithm::FirstFit);
    textwrap::wrap(text, options).iter().map(
        |line| match line {
            Cow::Borrowed(part) => Some(((part.as_ptr() as usize).wrapping_sub(base), part.len())),
            Cow::Owned(_) => None,
        },
    ).collect()
}

/// The spaces that `space_run` counts are spaces, and lie within the text.
pub proof fn lemma_space_run(bytes: Seq<u8>, pos: int)
    requires
        0 <= pos <= bytes.len(),
    ensures
        0 <= space_run(bytes, pos),
        pos + space_run(bytes, pos) <= bytes.len(),
        forall|i: int| pos <= i < pos + space_run(bytes, pos) ==> bytes[i] == SPACE,
    decreases bytes.len() - pos,
{
    if pos < bytes.len() && bytes[pos] == SPACE {
        lemma_space_run(bytes, pos + 1);
    }
}

/// Whether a line, given by offset and length, is a part of the text that a
/// range can stand for: it begins and ends at character boundaries, and the
/// byte behind its trailing spaces has an offset.
pub open spec fn span_ok(bytes: Seq<u8>, span: (usize, usize)) -> bool {
    &&& span.0 + span.1 <= bytes.len()
    &&& is_char_boundary(bytes, span.0 as int)
    &&& is_char_boundary(bytes, span.0 + span.1)
    &&& span.0 + span.1 + space_run(bytes, span.0 + span.1) < usize::MAX
}

/// The range that stands for a line: from its first byte to one byte behind
/// the spaces that follow it.
pub open spec fn line_range(bytes: Seq<u8>, span: (usize, usize)) -> Range<usize> {
    Range {
        start: span.0,
        end: (span.0 + span.1 + space_run(bytes, span.0 + span.1) + 1) as usize,
    }
}

/// The ranges that stand for lines given by offset and length. Where one of
/// them is no proper part of the text there are none.
pub open spec fn ranges_of_spans(bytes: Seq<u8>, spans: Seq<(usize, usize)>) -> Seq<Range<usize>> {
    if forall|k: int| 0 <= k < spans.len() ==> span_ok(bytes, #[trigger] spans[k]) {
        Seq::new(spans.len(), |k: int| line_range(bytes, spans[k]))
    } else {
        Seq::empty()
    }
}

/// The ranges of the lines into which a text is wrapped for a width. Where a
/// line is no proper part of the text there are none.
pub open spec fn wrapped_ranges(text: Seq<char>, width: u16) -> Seq<Range<usize>> {
    match first_fit_lines(text, width) {
        Some(spans) => ranges_of_spans(encode_utf8(text), spans),
        None => Seq::empty(),
    }
}

/// Every wrapped line begins at a character boundary and ends, one byte
/// before the end of its range, at another, within the text.
pub proof fn lemma_wrapped_ranges(text: Seq<char>, width: u16, k: int)
    requires
        0 <= k < wrapped_ranges(text, width).len(),
    ensures
        wrapped_ranges(text, width)[k].start <= wrapped_ranges(text, width)[k].end - 1,
        wrapped_ranges(text, width)[k].end - 1 <= encode_utf8(text).len(),
        is_char_boundary(encode_utf8(text), wrapped_ranges(text, width)[k].start as int),
        is_char_boundary(encode_utf8(text), wrapped_ranges(text, width)[k].end - 1),
{
    let bytes = encode_utf8(text);
    let spans = first_fit_lines(text, width).unwrap();
    let span = spans[k];
    let end = span.0 + span.1;
    lemma_space_run(bytes, end);
    lemma_ascii_run_boundary(bytes, end, end + space_run(bytes, end));
}

/// Gives the range of each of the lines of `text` that `spans` describe by
/// offset and length.
pub fn line_ranges(text: &str, spans: &Vec<(usize, usize)>) -> (lines: Vec<Range<usize>>)
    ensures
        lines@ == ranges_of_spans(text.spec_bytes(), spans@),
{
    let bytes = text.as_bytes();
    let byte_len = bytes.len();
    let mut lines: Vec<Range<usize>> = Vec::new();
    let mut k: usize = 0;
    while k < spans.len()
        invariant
            0 <= k <= spans@.len(),
            bytes@ == text.spec_bytes(),
            byte_len == bytes@.len(),
            lines@.len() == k,
            forall|j: int| 0 <= j < k ==> span_ok(bytes@, #[trigger] spans@[j]),
            forall|j: int| 0 <= j < k ==> #[trigger] lines@[j] == line_range(bytes@, spans@[j]),
        decreases spans@.len() - k,
    {
        let (start, len) = spans[k];
        if start > byte_len || len > byte_len - start {
            return Vec::new();
        }
        let end = start + len;
        if !text.is_char_boundary(start) || !text.is_char_boundary(end) {
            return Vec::new();
        }
        let spaces = count_spaces(bytes, end);
        if end + spaces == usize::MAX {
            return Vec::new();
        }
        lines.push(Range { start, end: end + spaces + 1 });
        k = k + 1;
    }
    lines
}

/// Wraps a text for a width and gives the range of each line.
pub fn wrap_ranges(text: &str, width: u16) -> (lines: Vec<Range<usize>>)
    requires
        width > 0,
    ensures
        lines@ == wrapped_ranges(text@, width),
{
    match wrap_first_fit(text, width) {
        Some(spans) => line_ranges(text, &spans),
        None => Vec::new(),
    }
}

/// How many lines, from line `from` on, come before the first that begins
/// behind offset `pos`, added to `from`.
pub open spec fn lines_before(lines: Seq<Range<usize>>, from: int, pos: int) -> int
    decreases lines.len() - from,
{
    if from < 0 || from >= lines.len() || lines[from].start > pos {
        from
    } else {
        lines_before(lines, from + 1, pos)
    }
}

/// The line that holds offset `pos`: the last of the leading lines that begin
/// at or before it. None where the first line begins behind `pos`, or where
/// there is no line.
pub open spec fn line_index_by_start(lines: Seq<Range<usize>>, pos: int) -> Option<int> {
    if lines_before(lines, 0, pos) == 0 {
        None
    } else {
        Some(lines_before(lines, 0, pos) - 1)
    }
}

/// The leading lines are lines, and each begins at or before the offset.
pub proof fn lemma_lines_before(lines: Seq<Range<usize>>, from: int, pos: int)
    requires
        0 <= from <= lines.len(),
    ensures
        from <= lines_before(lines, from, pos) <= lines.len(),
        forall|k: int| from <= k < lines_before(lines, from, pos) ==> lines[k].start <= pos,
    decreases lines.len() - from,
{
    if from < lines.len() && lines[from].start <= pos {
        lemma_lines_before(lines, from + 1, pos);
    }
}

/// Finds the line that holds offset `pos`.
pub fn wrapped_line_index_by_start(lines: &Vec<Range<usize>>, pos: usize) -> (index: Option<usize>)
    ensures
        match index {
            Some(i) => line_index_by_start(lines@, pos as int) == Some(i as int) && i
                < lines@.len() && lines@[i as int].start <= pos,
            None => line_index_by_start(lines@, pos as int) is None,
        },
{
    let mut k: usize = 0;
    proof {
        lemma_lines_before(lines@, 0, pos as int);
    }
    while k < lines.len() && lines[k].start <= pos
        invariant
            0 <= k <= lines@.len(),
            lines_before(lines@, 0, pos as int) == lines_before(lines@, k as int, pos as int),
        decreases lines@.len() - k,
    {
        k = k + 1;
    }
    if k == 0 {
        None
    } else {
        Some(k - 1)
    }
}

/// The first line to show of `total_lines` wrapped lines in an area of
/// `area_height` rows, where the cursor is on line `cursor_line` and the
/// first line shown was `current_scroll`: none is skipped where all fit;
/// else as few are skipped or brought back as puts the cursor's line in
/// view.
pub open spec fn scroll_for(
    total_lines: int,
    cursor_line: int,
    area_height: int,
    current_scroll: int,
) -> int {
    if area_height >= total_lines {
        0
    } else {
        let max_scroll = total_lines - area_height;
        let scroll = if current_scroll <= max_scroll {
            current_scroll
        } else {
            max_scroll
        };
        if cursor_line < scroll {
            cursor_line
        } else if cursor_line >= scroll + area_height {
            cursor_line + 1 - area_height
        } else {
            scroll
        }
    }
}

/// Where the text does not fit the area, the cursor's line is among the rows
/// shown, and no row behind the last line is.
pub proof fn lemma_scroll_keeps_cursor_in_view(
    total_lines: int,
    cursor_line: int,
    area_height: int,
    current_scroll: int,
)
    requires
        0 <= cursor_line < total_lines,
        0 < area_height < total_lines,
        0 <= current_scroll,
    ensures
        scroll_for(total_lines, cursor_line, area_height, current_scroll) <= cursor_line
            < scroll_for(total_lines, cursor_line, area_height, current_scroll) + area_height,
        0 <= scroll_for(total_lines, cursor_line, area_height, current_scroll) <= total_lines
            - area_height,
{
}

/// Computes the first line to show.
pub fn effective_scroll(
    lines: &Vec<Range<usize>>,
    cursor_pos: usize,
    area_height: u16,
    current_scroll: u16,
) -> (scroll: u16)
    requires
        lines@.len() <= u16::MAX,
    ensures
        scroll == scroll_for(
            lines@.len() as int,
            match line_index_by_start(lines@, cursor_pos as int) {
                Some(i) => i,
                None => 0,
            },
            area_height as int,
            current_scroll as int,
        ),
{
    let total_lines: u16 = lines.len() as u16;
    if area_height >= total_lines {
        return 0;
    }
    let cursor_line_idx: u16 = match wrapped_line_index_by_start(lines, cursor_pos) {
        Some(i) => i as u16,
        None => 0,
    };
    let max_scroll: u16 = total_lines - area_height;
    let mut scroll: u16 = if current_scroll <= max_scroll { current_scroll } else { max_scroll };
    if cursor_line_idx < scroll {
        scroll = cursor_line_idx;
    } else if cursor_line_idx >= scroll + area_height {
        scroll = cursor_line_idx + 1 - area_height;
    }
    scroll
}

} // verus!
