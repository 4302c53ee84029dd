//! Lines and character boundaries in UTF-8 text, by byte offset.

use crate::stream::NEWLINE;
use vstd::prelude::*;
use vstd::string::StringSliceAdditionalSpecFns;
use vstd::utf8::decode_utf8;
use vstd::utf8::is_char_boundary;
use vstd::utf8::length_of_first_scalar;
use vstd::utf8::pop_first_scalar;
use vstd::utf8::valid_utf8;

verus! {

broadcast use {vstd::utf8::encode_utf8_valid_utf8, vstd::utf8::encode_utf8_decode_utf8};

/// The byte of a space.
pub const SPACE: u8 = 32;

/// Where the line that holds offset `pos` begins: just behind the last line
/// end before `pos`, or at the start of the text.
pub open spec fn line_start(bytes: Seq<u8>, pos: int) -> int
    decreases pos,
{
    if pos <= 0 {
        0
    } else if bytes[pos - 1] == NEWLINE {
        pos
    } else {
        line_start(bytes, pos - 1)
    }
}

/// Where the line that holds offset `pos` ends: at the first line end at or
/// behind `pos`, or at the end of the text.
pub open spec fn line_end(bytes: Seq<u8>, pos: int) -> int
    decreases bytes.len() - pos,
{
    if pos >= bytes.len() {
        bytes.len() as int
    } else if bytes[pos] == NEWLINE {
        pos
    } else {
        line_end(bytes, pos + 1)
    }
}

/// A line begins at or before the offset it is asked for, behind a line end
/// or at the start of the text, and no line end lies between the two.
pub proof fn lemma_line_start(bytes: Seq<u8>, pos: int)
    requires
        0 <= pos <= bytes.len(),
    ensures
        0 <= line_start(bytes, pos) <= pos,
        line_start(bytes, pos) == 0 || bytes[line_start(bytes, pos) - 1] == NEWLINE,
        forall|i: int| line_start(bytes, pos) <= i < pos ==> bytes[i] != NEWLINE,
    decreases pos,
{
    if pos > 0 && bytes[pos - 1] != NEWLINE {
        lemma_line_start(bytes, pos - 1);
    }
}

/// A line ends at or behind the offset it is asked for, at a line end or at
/// the end of the text, and no line end lies between the two.
pub proof fn lemma_line_end(bytes: Seq<u8>, pos: int)
    requires
        0 <= pos <= bytes.len(),
    ensures
        pos <= line_end(bytes, pos) <= bytes.len(),
        line_end(bytes, pos) == bytes.len() || bytes[line_end(bytes, pos)] == NEWLINE,
        forall|i: int| pos <= i < line_end(bytes, pos) ==> bytes[i] != NEWLINE,
    decreases bytes.len() - pos,
{
    if pos < bytes.len() && bytes[pos] != NEWLINE {
        lemma_line_end(bytes, pos + 1);
    }
}

/// Finds where the line that holds `pos` begins.
pub fn find_line_start(bytes: &[u8], pos: usize) -> (start: usize)
    requires
        pos <= bytes@.len(),
    ensures
        start == line_start(bytes@, pos as int),
        start <= pos,
{
    let mut i: usize = pos;
    proof {
        lemma_line_start(bytes@, pos as int);
    }
    while i > 0 && bytes[i - 1] != NEWLINE
        invariant
            0 <= i <= pos <= bytes@.len(),
            line_start(bytes@, pos as int) == line_start(bytes@, i as int),
        decreases i,
    {
        i = i - 1;
    }
    i
}

/// Finds where the line that holds `pos` ends.
pub fn find_line_end(bytes: &[u8], pos: usize) -> (end: usize)
    requires
        pos <= bytes@.len(),
    ensures
        end == line_end(bytes@, pos as int),
        pos <= end <= bytes@.len(),
{
    let mut i: usize = pos;
    proof {
        lemma_line_end(bytes@, pos as int);
    }
    while i < bytes.len() && bytes[i] != NEWLINE
        invariant
            pos <= i <= bytes@.len(),
            line_end(bytes@, pos as int) == line_end(bytes@, i as int),
        decreases bytes@.len() - i,
    {
        i = i + 1;
    }
    i
}

/// How many spaces follow one another from offset `pos` on.
pub open spec fn space_run(bytes: Seq<u8>, pos: int) -> int
    decreases bytes.len() - pos,
{
    if pos < 0 || pos >= bytes.len() || bytes[pos] != SPACE {
        0
    } else {
        1 + space_run(bytes, pos + 1)
    }
}

/// Counts the spaces that follow one another from offset `pos` on.
pub fn count_spaces(bytes: &[u8], pos: usize) -> (n: usize)
    requires
        pos <= bytes@.len(),
    ensures
        n == space_run(bytes@, pos as int),
        pos + n <= bytes@.len(),
        forall|i: int| pos <= i < pos + n ==> bytes@[i] == SPACE,
{
    let mut i: usize = pos;
    while i < bytes.len() && bytes[i] == SPACE
        invariant
            pos <= i <= bytes@.len(),
            space_run(bytes@, pos as int) == (i - pos) + space_run(bytes@, i as int),
            forall|k: int| pos <= k < i ==> bytes@[k] == SPACE,
        decreases bytes@.len() - i,
    {
        i = i + 1;
    }
    i - pos
}

/// In valid UTF-8 a byte below 128 is a character of its own: a character
/// begins at it and the next begins right behind it.
pub proof fn lemma_ascii_is_whole_char(bytes: Seq<u8>, i: int)
    requires
        valid_utf8(bytes),
        0 <= i < bytes.len(),
        bytes[i] < 128,
    ensures
        is_char_boundary(bytes, i),
        is_char_boundary(bytes, i + 1),
    decreases bytes.len(),
{
    reveal_with_fuel(valid_utf8, 2);
    reveal_with_fuel(is_char_boundary, 2);
    let first = length_of_first_scalar(bytes);
    if i >= first {
        let rest = pop_first_scalar(bytes);
        lemma_ascii_is_whole_char(rest, i - first);
    }
}

/// In valid UTF-8 a run of bytes below 128 keeps to character boundaries:
/// if the run begins at one, a character begins behind each of its bytes.
pub proof fn lemma_ascii_run_boundary(bytes: Seq<u8>, from: int, to: int)
    requires
        valid_utf8(bytes),
        0 <= from <= to <= bytes.len(),
        is_char_boundary(bytes, from),
        forall|i: int| from <= i < to ==> bytes[i] < 128,
    ensures
        is_char_boundary(bytes, to),
{
    if from < to {
        lemma_ascii_is_whole_char(bytes, to - 1);
    }
}

/// The start of a line is a character boundary of valid UTF-8.
pub proof fn lemma_line_start_boundary(bytes: Seq<u8>, pos: int)
    requires
        valid_utf8(bytes),
        0 <= pos <= bytes.len(),
    ensures
        is_char_boundary(bytes, line_start(bytes, pos)),
{
    lemma_line_start(bytes, pos);
    let start = line_start(bytes, pos);
    if start > 0 {
        lemma_ascii_is_whole_char(bytes, start - 1);
    }
}

/// The end of a line is a character boundary of valid UTF-8, and so is the
/// offset behind the line end, where there is one.
pub proof fn lemma_line_end_boundary(bytes: Seq<u8>, pos: int)
    requires
        valid_utf8(bytes),
        0 <= pos <= bytes.len(),
    ensures
        is_char_boundary(bytes, line_end(bytes, pos)),
        line_end(bytes, pos) < bytes.len() ==> is_char_boundary(bytes, line_end(bytes, pos) + 1),
{
    lemma_line_end(bytes, pos);
    let end = line_end(bytes, pos);
    if end < bytes.len() {
        lemma_ascii_is_whole_char(bytes, end);
    } else {
        vstd::utf8::is_char_boundary_start_end_of_seq(bytes);
    }
}

/// A character boundary lies within the text.
pub proof fn lemma_boundary_in_text(bytes: Seq<u8>, index: int)
    requires
        valid_utf8(bytes),
        is_char_boundary(bytes, index),
    ensures
        0 <= index <= bytes.len(),
{
    reveal_with_fuel(is_char_boundary, 1);
}

/// A character boundary of a text is one of every prefix that reaches it,
/// when the prefix ends at a boundary itself.
pub proof fn lemma_boundary_in_prefix(bytes: Seq<u8>, index: int, end: int)
    requires
        valid_utf8(bytes),
        is_char_boundary(bytes, index),
        is_char_boundary(bytes, end),
        index <= end,
    ensures
        valid_utf8(bytes.subrange(0, end)),
        is_char_boundary(bytes.subrange(0, end), index),
{
    lemma_boundary_in_text(bytes, index);
    lemma_boundary_in_text(bytes, end);
    vstd::utf8::valid_utf8_split(bytes, end);
    let prefix = bytes.subrange(0, end);
    if index == end {
        vstd::utf8::is_char_boundary_start_end_of_seq(prefix);
    } else {
        vstd::utf8::is_char_boundary_iff_not_is_continuation_byte(bytes, index);
        vstd::utf8::is_char_boundary_iff_not_is_continuation_byte(prefix, index);
    }
}

/// A character boundary of a part of a text, taken between two boundaries, is
/// one of the text.
pub proof fn lemma_boundary_of_part(bytes: Seq<u8>, start: int, end: int, index: int)
    requires
        valid_utf8(bytes),
        is_char_boundary(bytes, start),
        is_char_boundary(bytes, end),
        start <= end,
        valid_utf8(bytes.subrange(start, end)),
        is_char_boundary(bytes.subrange(start, end), index),
    ensures
        is_char_boundary(bytes, start + index),
{
    lemma_boundary_in_text(bytes, start);
    lemma_boundary_in_text(bytes, end);
    let part = bytes.subrange(start, end);
    lemma_boundary_in_text(part, index);
    if 0 < index < end - start {
        vstd::utf8::is_char_boundary_iff_not_is_continuation_byte(part, index);
        vstd::utf8::is_char_boundary_iff_not_is_continuation_byte(bytes, start + index);
    }
}

/// The part of `s` between two byte offsets, both character boundaries.
pub fn substring<'a>(s: &'a str, start: usize, end: usize) -> (part: &'a str)
    requires
        start <= end,
        is_char_boundary(s.spec_bytes(), start as int),
        is_char_boundary(s.spec_bytes(), end as int),
    ensures
        part.spec_bytes() == s.spec_bytes().subrange(start as int, end as int),
        part@ == decode_utf8(s.spec_bytes().subrange(start as int, end as int)),
{
    proof {
        lemma_boundary_in_prefix(s.spec_bytes(), start as int, end as int);
        lemma_boundary_in_text(s.spec_bytes(), end as int);
    }
    let (head, _) = s.split_at(end);
    let (_, part) = head.split_at(start);
    part
}

} // verus!
