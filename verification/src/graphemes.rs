//! Columns on screen: the grapheme clusters of a text, how wide each shows,
//! and which of them stands at a given column.

use crate::text::lemma_boundary_in_text;
use crate::text::substring;
use unicode_segmentation::GraphemeCursor;
use unicode_segmentation::UnicodeSegmentation;
use unicode_width::UnicodeWidthStr;
use vstd::prelude::*;
use vstd::string::StringSliceAdditionalSpecFns;
use vstd::utf8::decode_utf8;
use vstd::utf8::encode_utf8;
use vstd::utf8::is_char_boundary;
use vstd::utf8::valid_utf8;

verus! {

broadcast use {vstd::utf8::encode_utf8_valid_utf8, vstd::utf8::encode_utf8_decode_utf8};

/// The extended grapheme clusters of a text, in order: the byte offset at
/// which each begins and its length in bytes.
pub uninterp spec fn grapheme_spans(text: Seq<char>) -> Seq<(usize, usize)>;

/// `UnicodeSegmentation::grapheme_indices` with extended clusters: each
/// cluster comes as a part of `s` with its offset, so it begins and ends at
/// character boundaries of `s`.
#[verifier::external_body]
fn grapheme_indices(s: &str) -> (spans: Vec<(usize, usize)>)
    ensures
        spans@ == grapheme_spans(s@),
        forall|k: int|
            0 <= k < spans@.len() ==> spans@[k].0 + spans@[k].1 <= s.spec_bytes().len()
                && is_char_boundary(s.spec_bytes(), (#[trigger] spans@[k]).0 as int)
                && is_char_boundary(s.spec_bytes(), spans@[k].0 + spans@[k].1),
{
    s.grapheme_indices(true).map(|(offset, cluster)| (offset, cluster.len())).collect()
}

/// The number of columns that a text takes on screen.
pub uninterp spec fn display_width(text: Seq<char>) -> usize;

/// `UnicodeWidthStr::width`: the number of columns that `s` takes.
#[verifier::external_body]
fn str_width(s: &str) -> (width: usize)
    ensures
        width == display_width(s@),
{
    UnicodeWidthStr::width(s)
}

/// The number of columns that the part of a text between two byte offsets
/// takes.
pub open spec fn width_between(bytes: Seq<u8>, start: int, end: int) -> usize {
    display_width(decode_utf8(bytes.subrange(start, end)))
}

/// Measures the part of `s` between two character boundaries.
pub fn measure(s: &str, start: usize, end: usize) -> (width: usize)
    requires
        start <= end,
        is_char_boundary(s.spec_bytes(), start as int),
        is_char_boundary(s.spec_bytes(), end as int),
    ensures
        width == width_between(s.spec_bytes(), start as int, end as int),
{
    str_width(substring(s, start, end))
}

/// The clusters of a line with the columns each takes: for every cluster its
/// byte offset in the line and its width.
pub open spec fn columns_of(line: Seq<u8>) -> Seq<(usize, usize)> {
    let spans = grapheme_spans(decode_utf8(line));
    Seq::new(
        spans.len(),
        |k: int| (spans[k].0, width_between(line, spans[k].0 as int, spans[k].0 + spans[k].1)),
    )
}

/// The offset of the cluster that stands at column `target_col`, looking from
/// cluster `from` on with `width_so_far` columns taken before it: the first
/// cluster with which the columns taken exceed the target. `end` where no
/// cluster reaches that far.
pub open spec fn offset_at_column_from(
    columns: Seq<(usize, usize)>,
    from: int,
    width_so_far: int,
    target_col: int,
    end: int,
) -> int
    decreases columns.len() - from,
{
    if from < 0 || from >= columns.len() {
        end
    } else if width_so_far + columns[from].1 > target_col {
        columns[from].0 as int
    } else {
        offset_at_column_from(columns, from + 1, width_so_far + columns[from].1, target_col, end)
    }
}

/// The offset of the cluster that stands at column `target_col` of a line,
/// or `end` where the line is not that wide.
pub open spec fn offset_at_column(columns: Seq<(usize, usize)>, target_col: int, end: int) -> int {
    offset_at_column_from(columns, 0, 0, target_col, end)
}

/// The offset found is that of a cluster, or `end`.
pub proof fn lemma_offset_at_column_from(
    columns: Seq<(usize, usize)>,
    from: int,
    width_so_far: int,
    target_col: int,
    end: int,
)
    requires
        0 <= from,
    ensures
        offset_at_column_from(columns, from, width_so_far, target_col, end) == end || exists|
            k: int,
        |
            from <= k < columns.len() && offset_at_column_from(
                columns,
                from,
                width_so_far,
                target_col,
                end,
            ) == (#[trigger] columns[k]).0,
    decreases columns.len() - from,
{
    if from < columns.len() && width_so_far + columns[from].1 <= target_col {
        lemma_offset_at_column_from(
            columns,
            from + 1,
            width_so_far + columns[from].1,
            target_col,
            end,
        );
    }
}

/// Finds the offset of the cluster at column `target_col` among the clusters
/// of a line, given with their widths.
pub fn column_offset(columns: &Vec<(usize, usize)>, target_col: usize, end: usize) -> (offset:
    usize)
    ensures
        offset == offset_at_column(columns@, target_col as int, end as int),
{
    let mut width_so_far: usize = 0;
    let mut k: usize = 0;
    while k < columns.len()
        invariant
            0 <= k <= columns@.len(),
            width_so_far <= target_col,
            offset_at_column(columns@, target_col as int, end as int) == offset_at_column_from(
                columns@,
                k as int,
                width_so_far as int,
                target_col as int,
                end as int,
            ),
        decreases columns@.len() - k,
    {
        let (offset, width) = columns[k];
        if width > target_col - width_so_far {
            return offset;
        }
        width_so_far = width_so_far + width;
        k = k + 1;
    }
    end
}

/// Lists the clusters of a line with their widths.
pub fn columns(line: &str) -> (result: Vec<(usize, usize)>)
    ensures
        result@ == columns_of(line.spec_bytes()),
        forall|k: int|
            0 <= k < result@.len() ==> (#[trigger] result@[k]).0 <= line.spec_bytes().len()
                && is_char_boundary(line.spec_bytes(), result@[k].0 as int),
{
    let spans = grapheme_indices(line);
    let byte_len = line.as_bytes().len();
    let mut result: Vec<(usize, usize)> = Vec::new();
    let mut k: usize = 0;
    while k < spans.len()
        invariant
            0 <= k <= spans@.len(),
            byte_len == line.spec_bytes().len(),
            spans@ == grapheme_spans(line@),
            line@ == decode_utf8(line.spec_bytes()),
            forall|j: int|
                0 <= j < spans@.len() ==> spans@[j].0 + spans@[j].1 <= line.spec_bytes().len()
                    && is_char_boundary(line.spec_bytes(), (#[trigger] spans@[j]).0 as int)
                    && is_char_boundary(line.spec_bytes(), spans@[j].0 + spans@[j].1),
            result@.len() == k,
            forall|j: int| 0 <= j < k ==> #[trigger] result@[j] == columns_of(line.spec_bytes())[j],
            forall|j: int|
                0 <= j < k ==> (#[trigger] result@[j]).0 <= line.spec_bytes().len()
                    && is_char_boundary(line.spec_bytes(), result@[j].0 as int),
        decreases spans@.len() - k,
    {
        let (offset, len) = spans[k];
        let width = measure(line, offset, offset + len);
        result.push((offset, width));
        k = k + 1;
    }
    result
}

/// The cluster boundary before byte offset `pos` of a text, by the legacy
/// rules: `Ok(Some(..))` with its offset, `Ok(None)` where `pos` is the start
/// of the text, `Err` where the segmentation could not decide.
pub uninterp spec fn prev_boundary_of(text: Seq<char>, pos: usize) -> Result<Option<usize>, ()>;

/// The cluster boundary behind byte offset `pos` of a text, by the legacy
/// rules: `Ok(Some(..))` with its offset, `Ok(None)` where `pos` is the end
/// of the text, `Err` where the segmentation could not decide.
pub uninterp spec fn next_boundary_of(text: Seq<char>, pos: usize) -> Result<Option<usize>, ()>;

/// `GraphemeCursor::prev_boundary` of a fresh cursor at `pos`, over the whole
/// text. The cursor walks back character by character from `pos`, which has
/// to be a character boundary, so a boundary it finds lies before `pos` at a
/// character boundary; it finds none only at the start of the text.
#[verifier::external_body]
fn prev_boundary(text: &str, pos: usize) -> (found: Result<Option<usize>, ()>)
    requires
        is_char_boundary(text.spec_bytes(), pos as int),
    ensures
        found == prev_boundary_of(text@, pos),
        pos == 0 ==> found is Ok && found.unwrap() is None,
        match found {
            Ok(Some(boundary)) => boundary < pos && is_char_boundary(
                text.spec_bytes(),
                boundary as int,
            ),
            Ok(None) => pos == 0,
            Err(_) => true,
        },
{
    GraphemeCursor::new(pos, text.len(), false).prev_boundary(text, 0).map_err(|_| ())
}

/// `GraphemeCursor::next_boundary` of a fresh cursor at `pos`, over the whole
/// text. The cursor walks on character by character from `pos`, which has to
/// be a character boundary, so a boundary it finds lies behind `pos` at a
/// character boundary; it finds none only at the end of the text.
#[verifier::external_body]
fn next_boundary(text: &str, pos: usize) -> (found: Result<Option<usize>, ()>)
    requires
        is_char_boundary(text.spec_bytes(), pos as int),
    ensures
        found == next_boundary_of(text@, pos),
        pos == text.spec_bytes().len() ==> found is Ok && found.unwrap() is None,
        match found {
            Ok(Some(boundary)) => pos < boundary && is_char_boundary(
                text.spec_bytes(),
                boundary as int,
            ),
            Ok(None) => pos == text.spec_bytes().len(),
            Err(_) => true,
        },
{
    GraphemeCursor::new(pos, text.len(), false).next_boundary(text, 0).map_err(|_| ())
}

/// Where one step back from byte offset `pos` leads, given what the
/// segmentation found, and whether a further step may follow: to the
/// boundary found; to the start of the text where there is none, which ends
/// the walk; one byte back where the segmentation could not decide, which
/// ends it too.
pub open spec fn back_step(pos: usize, found: Result<Option<usize>, ()>) -> (usize, bool) {
    match found {
        Ok(Some(boundary)) => (boundary, true),
        Ok(None) => (0, false),
        Err(_) => (
            if pos > 0 {
                (pos - 1) as usize
            } else {
                0
            },
            false,
        ),
    }
}

/// Where one step on from byte offset `pos` of a text of `len` bytes leads,
/// given what the segmentation found, and whether a further step may follow:
/// to the boundary found; to the end of the text where there is none, which
/// ends the walk; one byte on where the segmentation could not decide, which
/// ends it too.
pub open spec fn forth_step(pos: usize, len: usize, found: Result<Option<usize>, ()>) -> (
    usize,
    bool,
) {
    match found {
        Ok(Some(boundary)) => (boundary, true),
        Ok(None) => (len, false),
        Err(_) => (
            if pos < usize::MAX {
                (pos + 1) as usize
            } else {
                pos
            },
            false,
        ),
    }
}

/// Where `n` steps back over clusters lead from byte offset `pos`.
pub open spec fn backward_target(text: Seq<char>, pos: usize, n: nat) -> usize
    decreases n,
{
    if n == 0 {
        pos
    } else {
        let (target, more) = back_step(pos, prev_boundary_of(text, pos));
        if more {
            backward_target(text, target, (n - 1) as nat)
        } else {
            target
        }
    }
}

/// Where `n` steps on over clusters lead from byte offset `pos`.
pub open spec fn forward_target(text: Seq<char>, pos: usize, n: nat) -> usize
    decreases n,
{
    if n == 0 {
        pos
    } else {
        let (target, more) = forth_step(
            pos,
            encode_utf8(text).len() as usize,
            next_boundary_of(text, pos),
        );
        if more {
            forward_target(text, target, (n - 1) as nat)
        } else {
            target
        }
    }
}

/// Takes one step back from `pos`, given what the segmentation found.
pub fn step_back(pos: usize, found: Result<Option<usize>, ()>) -> (step: (usize, bool))
    ensures
        step == back_step(pos, found),
{
    match found {
        Ok(Some(boundary)) => (boundary, true),
        Ok(None) => (0, false),
        Err(_) => (if pos > 0 { pos - 1 } else { 0 }, false),
    }
}

/// Takes one step on from `pos` in a text of `len` bytes, given what the
/// segmentation found.
pub fn step_forth(pos: usize, len: usize, found: Result<Option<usize>, ()>) -> (step: (
    usize,
    bool,
))
    ensures
        step == forth_step(pos, len, found),
{
    match found {
        Ok(Some(boundary)) => (boundary, true),
        Ok(None) => (len, false),
        Err(_) => (if pos < usize::MAX { pos + 1 } else { pos }, false),
    }
}

/// Steps back over `n` clusters from the character boundary `pos`.
pub fn step_backward(text: &str, pos: usize, n: usize) -> (target: usize)
    requires
        is_char_boundary(text.spec_bytes(), pos as int),
    ensures
        target == backward_target(text@, pos, n as nat),
        target <= pos,
{
    let mut target: usize = pos;
    let mut i: usize = 0;
    while i < n
        invariant
            0 <= i <= n,
            target <= pos,
            is_char_boundary(text.spec_bytes(), target as int),
            backward_target(text@, pos, n as nat) == backward_target(
                text@,
                target,
                (n - i) as nat,
            ),
        decreases n - i,
    {
        let (next, more) = step_back(target, prev_boundary(text, target));
        if !more {
            return next;
        }
        target = next;
        i = i + 1;
    }
    target
}

/// Steps on over `n` clusters from the character boundary `pos`.
pub fn step_forward(text: &str, pos: usize, n: usize) -> (target: usize)
    requires
        is_char_boundary(text.spec_bytes(), pos as int),
    ensures
        target == forward_target(text@, pos, n as nat),
        pos <= target <= text.spec_bytes().len(),
{
    let byte_len = text.as_bytes().len();
    let mut target: usize = pos;
    let mut i: usize = 0;
    proof {
        lemma_boundary_in_text(text.spec_bytes(), pos as int);
    }
    while i < n
        invariant
            0 <= i <= n,
            pos <= target <= byte_len,
            byte_len == text.spec_bytes().len(),
            byte_len == encode_utf8(text@).len(),
            is_char_boundary(text.spec_bytes(), target as int),
            forward_target(text@, pos, n as nat) == forward_target(text@, target, (n - i) as nat),
        decreases n - i,
    {
        let found = next_boundary(text, target);
        proof {
            if let Ok(Some(boundary)) = found {
                lemma_boundary_in_text(text.spec_bytes(), boundary as int);
            }
        }
        let (next, more) = step_forth(target, byte_len, found);
        if !more {
            return next;
        }
        target = next;
        i = i + 1;
    }
    target
}

} // verus!
