//! Words in a text: runs of characters that are not white space, found by
//! byte offset.

use vstd::prelude::*;
use vstd::string::StringSliceAdditionalSpecFns;
use vstd::utf8::encode_scalar;
use vstd::utf8::encode_utf8;

verus! {

/// Whether a character has the Unicode property `White_Space`.
pub uninterp spec fn is_white_space(c: char) -> bool;

/// `char::is_whitespace` tells whether a character has the Unicode property
/// `White_Space`; the contract gives that property a name.
pub assume_specification[ char::is_whitespace ](c: char) -> (white: bool)
    ensures
        white == is_white_space(c),
;

/// The byte offset at which character `k` of a text begins: the length of
/// the encoding of all characters before it.
pub open spec fn char_offset(chars: Seq<char>, k: int) -> int {
    encode_utf8(chars.take(k)).len() as int
}

/// The characters of a text, each with the byte offset at which it begins.
pub open spec fn char_table(chars: Seq<char>) -> Seq<(usize, char)> {
    Seq::new(chars.len(), |k: int| (char_offset(chars, k) as usize, chars[k]))
}

/// `str::char_indices`, collected: the characters of `s` in order, each with
/// its byte offset.
#[verifier::external_body]
fn char_indices(s: &str) -> (table: Vec<(usize, char)>)
    ensures
        table@ == char_table(s@),
{
    s.char_indices().collect()
}

/// The encoding of a text made of two parts is that of the first followed by
/// that of the second.
pub proof fn lemma_encode_concat(a: Seq<char>, b: Seq<char>)
    ensures
        encode_utf8(a + b) == encode_utf8(a) + encode_utf8(b),
    decreases a.len(),
{
    if a.len() > 0 {
        assert((a + b).drop_first() =~= a.drop_first() + b);
        lemma_encode_concat(a.drop_first(), b);
    }
}

/// Every character takes at least one byte: the offsets of the characters
/// grow strictly, and none reaches the length of the text.
pub proof fn lemma_char_offsets(chars: Seq<char>, i: int, j: int)
    requires
        0 <= i <= j <= chars.len(),
    ensures
        char_offset(chars, j) - char_offset(chars, i) >= j - i,
        char_offset(chars, chars.len() as int) == encode_utf8(chars).len(),
        char_offset(chars, 0) == 0,
    decreases j - i,
{
    assert(chars.take(chars.len() as int) =~= chars);
    assert(chars.take(0) =~= Seq::<char>::empty());
    if i < j {
        lemma_char_offsets(chars, i, j - 1);
        let last = seq![chars[j - 1]];
        assert(chars.take(j) =~= chars.take(j - 1) + last);
        lemma_encode_concat(chars.take(j - 1), last);
        assert(last.drop_first() =~= Seq::<char>::empty());
    }
}

/// The first character, from character `from` on, that begins at or behind
/// byte offset `pos`; the number of characters where there is none.
pub open spec fn char_at_or_after(table: Seq<(usize, char)>, from: int, pos: int) -> int
    decreases table.len() - from,
{
    if from < 0 || from >= table.len() || table[from].0 >= pos {
        from
    } else {
        char_at_or_after(table, from + 1, pos)
    }
}

/// The last character before character `end` that is white space, or is
/// not, as `white` asks; -1 where there is none.
pub open spec fn last_char_where(table: Seq<(usize, char)>, end: int, white: bool) -> int
    decreases end,
{
    if end <= 0 || end > table.len() {
        -1
    } else if is_white_space(table[end - 1].1) == white {
        end - 1
    } else {
        last_char_where(table, end - 1, white)
    }
}

/// The first character from character `from` on that is white space, or is
/// not, as `white` asks; the number of characters where there is none.
pub open spec fn first_char_where(table: Seq<(usize, char)>, from: int, white: bool) -> int
    decreases table.len() - from,
{
    if from < 0 || from >= table.len() {
        table.len() as int
    } else if is_white_space(table[from].1) == white {
        from
    } else {
        first_char_where(table, from + 1, white)
    }
}

/// Where the word before byte offset `cursor` begins: one byte behind the
/// last white space that comes before the last character of a word before
/// the offset; the start of the text where there is no such white space or
/// no such word.
pub open spec fn prev_word_start(text: Seq<char>, cursor: int) -> int {
    let table = char_table(text);
    let before = char_at_or_after(table, 0, cursor);
    let last_of_word = last_char_where(table, before, false);
    if last_of_word < 0 {
        0
    } else {
        let space = last_char_where(table, last_of_word, true);
        if space < 0 {
            0
        } else {
            table[space].0 + 1
        }
    }
}

/// Where the word at or behind byte offset `cursor` ends: at the first white
/// space behind the first character of a word at or behind the offset; the
/// end of the text where there is no such white space or no such word.
pub open spec fn next_word_end(text: Seq<char>, cursor: int) -> int {
    let table = char_table(text);
    let from = char_at_or_after(table, 0, cursor);
    let first_of_word = first_char_where(table, from, false);
    if first_of_word >= table.len() {
        encode_utf8(text).len() as int
    } else {
        let space = first_char_where(table, first_of_word, true);
        if space >= table.len() {
            encode_utf8(text).len() as int
        } else {
            table[space].0 as int
        }
    }
}

proof fn lemma_char_at_or_after(table: Seq<(usize, char)>, from: int, pos: int)
    requires
        0 <= from <= table.len(),
    ensures
        from <= char_at_or_after(table, from, pos) <= table.len(),
        forall|k: int| from <= k < char_at_or_after(table, from, pos) ==> table[k].0 < pos,
        char_at_or_after(table, from, pos) < table.len() ==> table[char_at_or_after(
            table,
            from,
            pos,
        )].0 >= pos,
    decreases table.len() - from,
{
    if from < table.len() && table[from].0 < pos {
        lemma_char_at_or_after(table, from + 1, pos);
    }
}

proof fn lemma_last_char_where(table: Seq<(usize, char)>, end: int, white: bool)
    requires
        0 <= end <= table.len(),
    ensures
        -1 <= last_char_where(table, end, white) < end,
    decreases end,
{
    if end > 0 && is_white_space(table[end - 1].1) != white {
        lemma_last_char_where(table, end - 1, white);
    }
}

proof fn lemma_first_char_where(table: Seq<(usize, char)>, from: int, white: bool)
    requires
        0 <= from <= table.len(),
    ensures
        from <= first_char_where(table, from, white) <= table.len(),
    decreases table.len() - from,
{
    if from < table.len() && is_white_space(table[from].1) != white {
        lemma_first_char_where(table, from + 1, white);
    }
}

/// The word before an offset begins at or before the offset.
pub proof fn lemma_prev_word_start(text: Seq<char>, cursor: int)
    requires
        0 <= cursor <= encode_utf8(text).len() <= usize::MAX,
    ensures
        0 <= prev_word_start(text, cursor) <= cursor,
{
    let table = char_table(text);
    lemma_char_at_or_after(table, 0, cursor);
    let before = char_at_or_after(table, 0, cursor);
    lemma_last_char_where(table, before, false);
    let last_of_word = last_char_where(table, before, false);
    if last_of_word >= 0 {
        lemma_last_char_where(table, last_of_word, true);
        let space = last_char_where(table, last_of_word, true);
        if space >= 0 {
            lemma_char_offsets(text, space, last_of_word);
            lemma_char_offsets(text, last_of_word, text.len() as int);
            lemma_char_offsets(text, 0, space);
        }
    }
}

/// The word at or behind an offset ends at or behind the offset, within the
/// text.
pub proof fn lemma_next_word_end(text: Seq<char>, cursor: int)
    requires
        0 <= cursor <= encode_utf8(text).len() <= usize::MAX,
    ensures
        cursor <= next_word_end(text, cursor) <= encode_utf8(text).len(),
{
    let table = char_table(text);
    lemma_char_at_or_after(table, 0, cursor);
    let from = char_at_or_after(table, 0, cursor);
    lemma_first_char_where(table, from, false);
    let first_of_word = first_char_where(table, from, false);
    if first_of_word < table.len() {
        lemma_first_char_where(table, first_of_word, true);
        let space = first_char_where(table, first_of_word, true);
        if space < table.len() {
            lemma_char_offsets(text, from, space);
            lemma_char_offsets(text, space, text.len() as int);
            lemma_char_offsets(text, 0, from);
        }
    }
}

/// Finds where the word before byte offset `cursor` begins.
pub fn beginning_of_previous_word(text: &str, cursor: usize) -> (start: usize)
    requires
        cursor <= text.spec_bytes().len(),
    ensures
        start == prev_word_start(text@, cursor as int),
        start <= cursor,
{
    let byte_len = text.as_bytes().len();
    let table = char_indices(text);
    proof {
        assert(cursor <= byte_len);
        lemma_prev_word_start(text@, cursor as int);
        lemma_char_at_or_after(table@, 0, cursor as int);
    }
    let mut before: usize = 0;
    while before < table.len() && table[before].0 < cursor
        invariant
            0 <= before <= table@.len(),
            char_at_or_after(table@, 0, cursor as int) == char_at_or_after(
                table@,
                before as int,
                cursor as int,
            ),
        decreases table@.len() - before,
    {
        before = before + 1;
    }
    let mut end: usize = before;
    while end > 0 && table[end - 1].1.is_whitespace()
        invariant
            0 <= end <= before <= table@.len(),
            last_char_where(table@, before as int, false) == last_char_where(
                table@,
                end as int,
                false,
            ),
        decreases end,
    {
        end = end - 1;
    }
    if end == 0 {
        return 0;
    }
    let last_of_word: usize = end - 1;
    let mut space_end: usize = last_of_word;
    while space_end > 0 && !table[space_end - 1].1.is_whitespace()
        invariant
            0 <= space_end <= last_of_word < table@.len(),
            last_char_where(table@, last_of_word as int, true) == last_char_where(
                table@,
                space_end as int,
                true,
            ),
        decreases space_end,
    {
        space_end = space_end - 1;
    }
    if space_end == 0 {
        return 0;
    }
    proof {
        lemma_char_offsets(text@, space_end - 1, text@.len() as int);
        lemma_char_offsets(text@, 0, space_end - 1);
    }
    table[space_end - 1].0 + 1
}

/// Finds where the word at or behind byte offset `cursor` ends.
pub fn end_of_next_word(text: &str, cursor: usize) -> (end: usize)
    requires
        cursor <= text.spec_bytes().len(),
    ensures
        end == next_word_end(text@, cursor as int),
        cursor <= end <= text.spec_bytes().len(),
{
    let byte_len = text.as_bytes().len();
    let table = char_indices(text);
    proof {
        lemma_next_word_end(text@, cursor as int);
    }
    let mut from: usize = 0;
    while from < table.len() && table[from].0 < cursor
        invariant
            0 <= from <= table@.len(),
            char_at_or_after(table@, 0, cursor as int) == char_at_or_after(
                table@,
                from as int,
                cursor as int,
            ),
        decreases table@.len() - from,
    {
        from = from + 1;
    }
    let mut first_of_word: usize = from;
    while first_of_word < table.len() && table[first_of_word].1.is_whitespace()
        invariant
            from <= first_of_word <= table@.len(),
            first_char_where(table@, from as int, false) == first_char_where(
                table@,
                first_of_word as int,
                false,
            ),
        decreases table@.len() - first_of_word,
    {
        first_of_word = first_of_word + 1;
    }
    if first_of_word >= table.len() {
        return byte_len;
    }
    let mut space: usize = first_of_word;
    while space < table.len() && !table[space].1.is_whitespace()
        invariant
            first_of_word <= space <= table@.len(),
            first_char_where(table@, first_of_word as int, true) == first_char_where(
                table@,
                space as int,
                true,
            ),
        decreases table@.len() - space,
    {
        space = space + 1;
    }
    if space >= table.len() {
        return byte_len;
    }
    table[space].0
}

} // verus!
