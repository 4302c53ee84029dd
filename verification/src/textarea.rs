//! A multi-line text buffer with a cursor, addressed by byte offset into its
//! UTF-8 text.

use crate::graphemes::backward_target;
use crate::graphemes::column_offset;
use crate::graphemes::columns;
use crate::graphemes::columns_of;
use crate::graphemes::forward_target;
use crate::graphemes::lemma_offset_at_column_from;
use crate::graphemes::measure;
use crate::graphemes::offset_at_column;
use crate::graphemes::step_backward;
use crate::graphemes::step_forward;
use crate::graphemes::width_between;
use crate::text::find_line_end;
use crate::text::find_line_start;
use crate::text::lemma_boundary_in_text;
use crate::text::lemma_line_end_boundary;
use crate::text::lemma_line_start_boundary;
use crate::text::line_end;
use crate::text::line_start;
use crate::text::substring;
use crate::words::next_word_end;
use crate::words::prev_word_start;
use crate::wrap::lemma_wrapped_ranges;
use crate::wrap::line_index_by_start;
use crate::wrap::scroll_for;
use crate::wrap::wrap_ranges;
use crate::wrap::wrapped_line_index_by_start;
use crate::wrap::wrapped_ranges;
use std::ops::Range;
use vstd::prelude::*;
use vstd::string::StringSliceAdditionalSpecFns;
use vstd::utf8::encode_utf8;
use vstd::utf8::is_char_boundary;

verus! {

broadcast use vstd::utf8::encode_utf8_valid_utf8;

/// The text `bytes` with the part from `start` to `end` replaced by
/// `inserted`.
pub open spec fn spliced(bytes: Seq<u8>, start: int, end: int, inserted: Seq<u8>) -> Seq<u8> {
    bytes.subrange(0, start) + inserted + bytes.subrange(end, bytes.len() as int)
}

/// `String::insert_str`: the new text is the old one with `text` put in at
/// byte offset `idx`, which has to be a character boundary of the old text.
#[verifier::external_body]
fn string_insert_str(s: &mut String, idx: usize, text: &str)
    requires
        is_char_boundary(encode_utf8(old(s)@), idx as int),
    ensures
        encode_utf8(final(s)@) == spliced(
            encode_utf8(old(s)@),
            idx as int,
            idx as int,
            encode_utf8(text@),
        ),
{
    s.insert_str(idx, text)
}

/// `String::replace_range`: the new text is the old one with the bytes from
/// `start` to `end` replaced by `text`; both offsets have to be character
/// boundaries of the old text.
#[verifier::external_body]
fn string_replace_range(s: &mut String, start: usize, end: usize, text: &str)
    requires
        start <= end,
        is_char_boundary(encode_utf8(old(s)@), start as int),
        is_char_boundary(encode_utf8(old(s)@), end as int),
    ensures
        encode_utf8(final(s)@) == spliced(
            encode_utf8(old(s)@),
            start as int,
            end as int,
            encode_utf8(text@),
        ),
{
    s.replace_range(start..end, text)
}

/// The lines of the text as wrapped for one width.
#[derive(Debug, Clone)]
pub struct WrapCache {
    /// The width the lines were wrapped for.
    pub width: u16,
    /// The byte range of each line, its trailing spaces and one byte more.
    pub lines: Vec<Range<usize>>,
}

/// A text under edit: the text, the cursor, the column that vertical moves
/// aim for, and the lines as last wrapped.
#[derive(Debug)]
pub struct TextArea {
    text: String,
    cursor_pos: usize,
    wrap_cache: Option<WrapCache>,
    preferred_col: Option<usize>,
}

/// Where the cursor stands after the bytes from `start` to `end` of a text
/// gave way to `inserted_len` bytes, leaving `new_len` bytes in all: a cursor
/// before the part stays, one inside it goes behind the new bytes, one behind
/// it moves with the text.
pub open spec fn cursor_after_replace(
    cursor: int,
    start: int,
    end: int,
    inserted_len: int,
    new_len: int,
) -> int {
    let moved = if cursor < start {
        cursor
    } else if cursor <= end {
        start + inserted_len
    } else {
        cursor + inserted_len - (end - start)
    };
    if moved <= new_len {
        moved
    } else {
        new_len
    }
}

impl TextArea {
    /// The text.
    pub closed spec fn spec_text(&self) -> Seq<char> {
        self.text@
    }

    /// The text as UTF-8 bytes, which all offsets refer to.
    pub open spec fn bytes(&self) -> Seq<u8> {
        encode_utf8(self.spec_text())
    }

    /// The byte offset of the cursor.
    pub closed spec fn spec_cursor(&self) -> int {
        self.cursor_pos as int
    }

    /// The column that vertical moves aim for, while one is remembered.
    pub closed spec fn spec_preferred_col(&self) -> Option<usize> {
        self.preferred_col
    }

    /// The lines as last wrapped, while they are remembered.
    pub closed spec fn spec_wrap_cache(&self) -> Option<WrapCache> {
        self.wrap_cache
    }

    /// The invariant of the text area: the cursor lies within the text, and
    /// the lines remembered are those of the text as it stands.
    pub closed spec fn wf(&self) -> bool {
        &&& self.cursor_pos <= encode_utf8(self.text@).len()
        &&& match self.wrap_cache {
            Some(cache) => cache.width > 0 && cache.lines@ == wrapped_ranges(
                self.text@,
                cache.width,
            ),
            None => true,
        }
    }

    /// Whether the cursor stands between two characters, not inside one.
    pub open spec fn cursor_on_boundary(&self) -> bool {
        is_char_boundary(self.bytes(), self.spec_cursor())
    }

    /// Two areas with the same bytes hold the same text.
    pub proof fn lemma_bytes_determine_text(&self, other: &TextArea)
        requires
            self.bytes() == other.bytes(),
        ensures
            self.spec_text() == other.spec_text(),
    {
        vstd::utf8::encode_utf8_decode_utf8(self.spec_text());
        vstd::utf8::encode_utf8_decode_utf8(other.spec_text());
    }

    /// The cursor lies within the text, and lines that are remembered are
    /// the wrapped lines of the text.
    pub proof fn lemma_wf(&self)
        requires
            self.wf(),
        ensures
            0 <= self.spec_cursor() <= self.bytes().len(),
            match self.spec_wrap_cache() {
                Some(cache) => cache.width > 0 && cache.lines@ == wrapped_ranges(
                    self.spec_text(),
                    cache.width,
                ),
                None => true,
            },
    {
    }

    /// An empty text with the cursor at its start.
    pub fn new() -> (area: TextArea)
        ensures
            area.wf(),
            area.spec_text() == Seq::<char>::empty(),
            area.spec_cursor() == 0,
            area.spec_preferred_col() is None,
            area.spec_wrap_cache() is None,
    {
        TextArea { text: String::new(), cursor_pos: 0, wrap_cache: None, preferred_col: None }
    }

    fn len(&self) -> (n: usize)
        ensures
            n == self.bytes().len(),
    {
        self.text.as_str().as_bytes().len()
    }

    /// Replaces the whole text. The cursor stays where it is, or goes to the
    /// end of the new text where that is shorter.
    pub fn set_text(&mut self, text: &str)
        requires
            old(self).wf(),
        ensures
            final(self).wf(),
            final(self).spec_text() == text@,
            final(self).spec_cursor() == if old(self).spec_cursor() <= encode_utf8(text@).len() {
                old(self).spec_cursor()
            } else {
                encode_utf8(text@).len() as int
            },
            final(self).spec_preferred_col() is None,
            final(self).spec_wrap_cache() is None,
    {
        self.text = text.to_owned();
        let len = self.len();
        if self.cursor_pos > len {
            self.cursor_pos = len;
        }
        self.wrap_cache = None;
        self.preferred_col = None;
    }

    /// The text.
    pub fn text(&self) -> (text: &str)
        ensures
            text@ == self.spec_text(),
    {
        self.text.as_str()
    }

    /// Puts `text` in at the cursor, which then stands behind it.
    pub fn insert_str(&mut self, text: &str)
        requires
            old(self).wf(),
            old(self).cursor_on_boundary(),
        ensures
            final(self).wf(),
            final(self).bytes() == spliced(
                old(self).bytes(),
                old(self).spec_cursor(),
                old(self).spec_cursor(),
                encode_utf8(text@),
            ),
            final(self).spec_cursor() == old(self).spec_cursor() + encode_utf8(text@).len(),
            final(self).spec_preferred_col() is None,
            final(self).spec_wrap_cache() is None,
    {
        let pos = self.cursor_pos;
        self.insert_str_at(pos, text);
    }

    /// Puts `text` in at byte offset `pos`, which has to be a character
    /// boundary. A cursor at or behind `pos` moves with the text behind it.
    pub fn insert_str_at(&mut self, pos: usize, text: &str)
        requires
            old(self).wf(),
            is_char_boundary(old(self).bytes(), pos as int),
        ensures
            final(self).wf(),
            final(self).bytes() == spliced(
                old(self).bytes(),
                pos as int,
                pos as int,
                encode_utf8(text@),
            ),
            final(self).spec_cursor() == if pos <= old(self).spec_cursor() {
                old(self).spec_cursor() + encode_utf8(text@).len()
            } else {
                old(self).spec_cursor()
            },
            final(self).spec_preferred_col() is None,
            final(self).spec_wrap_cache() is None,
    {
        let inserted_len = text.as_bytes().len();
        string_insert_str(&mut self.text, pos, text);
        let new_len = self.len();
        self.wrap_cache = None;
        if pos <= self.cursor_pos {
            assert(self.cursor_pos + inserted_len <= new_len);
            self.cursor_pos = self.cursor_pos + inserted_len;
        }
        self.preferred_col = None;
    }

    /// Whether replacing `range` by a text of `inserted_len` bytes changes
    /// nothing: the range, cut to the text, is empty and so is the new text.
    pub open spec fn replace_is_noop(&self, range: Range<usize>, inserted_len: int) -> bool {
        let len = self.bytes().len();
        let start = if range.start <= len { range.start as int } else { len as int };
        let end = if range.end <= len { range.end as int } else { len as int };
        end - start == 0 && inserted_len == 0
    }

    /// Replaces the bytes of `range` by `text`. Both ends of the range have
    /// to be character boundaries, unless nothing is to change.
    pub fn replace_range(&mut self, range: Range<usize>, text: &str)
        requires
            old(self).wf(),
            range.start <= range.end,
            old(self).replace_is_noop(range, encode_utf8(text@).len() as int) || (is_char_boundary(
                old(self).bytes(),
                range.start as int,
            ) && is_char_boundary(old(self).bytes(), range.end as int)),
        ensures
            final(self).wf(),
            old(self).replace_is_noop(range, encode_utf8(text@).len() as int) ==> *final(self)
                == *old(self),
            !old(self).replace_is_noop(range, encode_utf8(text@).len() as int) ==> {
                &&& final(self).bytes() == spliced(
                    old(self).bytes(),
                    range.start as int,
                    range.end as int,
                    encode_utf8(text@),
                )
                &&& final(self).spec_cursor() == cursor_after_replace(
                    old(self).spec_cursor(),
                    range.start as int,
                    range.end as int,
                    encode_utf8(text@).len() as int,
                    final(self).bytes().len() as int,
                )
                &&& final(self).spec_preferred_col() is None
                &&& final(self).spec_wrap_cache() is None
            },
    {
        let len = self.len();
        let start = if range.start <= len { range.start } else { len };
        let end = if range.end <= len { range.end } else { len };
        let removed_len = end - start;
        let inserted_len = text.as_bytes().len();
        if removed_len == 0 && inserted_len == 0 {
            return ;
        }
        string_replace_range(&mut self.text, range.start, range.end, text);
        let new_len = self.len();
        self.wrap_cache = None;
        self.preferred_col = None;
        let moved = if self.cursor_pos < start {
            self.cursor_pos
        } else if self.cursor_pos <= end {
            start + inserted_len
        } else {
            self.cursor_pos - removed_len + inserted_len
        };
        self.cursor_pos = if moved <= new_len { moved } else { new_len };
    }

    /// The byte offset of the cursor.
    pub fn cursor(&self) -> (pos: usize)
        ensures
            pos == self.spec_cursor(),
    {
        self.cursor_pos
    }

    /// Moves the cursor to `pos`, or to the end of the text where `pos` lies
    /// behind it.
    pub fn set_cursor(&mut self, pos: usize)
        requires
            old(self).wf(),
        ensures
            final(self).wf(),
            final(self).spec_text() == old(self).spec_text(),
            final(self).spec_cursor() == if pos <= old(self).bytes().len() {
                pos as int
            } else {
                old(self).bytes().len() as int
            },
            final(self).spec_preferred_col() is None,
            final(self).spec_wrap_cache() == old(self).spec_wrap_cache(),
    {
        let len = self.len();
        self.cursor_pos = if pos <= len { pos } else { len };
        self.preferred_col = None;
    }

    /// Whether the text is empty.
    pub fn is_empty(&self) -> (empty: bool)
        ensures
            empty == (self.spec_text().len() == 0),
    {
        self.text.as_str().is_empty()
    }
}

/// The end of the part that a kill towards the end of the line removes, for
/// a cursor at `cursor`: the end of the line, or the offset behind the line
/// end where the cursor already stands at the end of a line that has one.
pub open spec fn kill_forward_end(bytes: Seq<u8>, cursor: int) -> int {
    let eol = line_end(bytes, cursor);
    if cursor == eol && eol < bytes.len() {
        eol + 1
    } else {
        eol
    }
}

/// The start of the part that a kill towards the beginning of the line
/// removes, for a cursor at `cursor`: the start of the line, or the offset of
/// the line end before it where the cursor already stands at the start of a
/// line that has one before it.
pub open spec fn kill_backward_start(bytes: Seq<u8>, cursor: int) -> int {
    let bol = line_start(bytes, cursor);
    if cursor == bol && bol > 0 {
        bol - 1
    } else {
        bol
    }
}

/// Where a move to the beginning of the line takes a cursor at `cursor`: to
/// the start of its line, or, if it stands there already and is to move up
/// then, to the start of the line before.
pub open spec fn home_target(bytes: Seq<u8>, cursor: int, move_up_at_bol: bool) -> int {
    let bol = line_start(bytes, cursor);
    if move_up_at_bol && cursor == bol {
        line_start(bytes, if cursor > 0 { cursor - 1 } else { 0 })
    } else {
        bol
    }
}

/// Where a move to the end of the line takes a cursor at `cursor`: to the end
/// of its line, or, if it stands there already and is to move down then, to
/// the end of the line behind.
pub open spec fn end_target(bytes: Seq<u8>, cursor: int, move_down_at_eol: bool) -> int {
    let eol = line_end(bytes, cursor);
    if move_down_at_eol && cursor == eol {
        line_end(bytes, if cursor + 1 <= bytes.len() { cursor + 1 } else { bytes.len() as int })
    } else {
        eol
    }
}

impl TextArea {
    /// Where the line that holds offset `pos` begins.
    pub fn beginning_of_line(&self, pos: usize) -> (start: usize)
        requires
            pos <= self.bytes().len(),
        ensures
            start == line_start(self.bytes(), pos as int),
            start <= pos,
    {
        find_line_start(self.text.as_str().as_bytes(), pos)
    }

    /// Where the line of the cursor begins.
    pub fn beginning_of_current_line(&self) -> (start: usize)
        requires
            self.wf(),
        ensures
            start == line_start(self.bytes(), self.spec_cursor()),
            start <= self.spec_cursor(),
    {
        self.beginning_of_line(self.cursor_pos)
    }

    /// Where the line that holds offset `pos` ends.
    pub fn end_of_line(&self, pos: usize) -> (end: usize)
        requires
            pos <= self.bytes().len(),
        ensures
            end == line_end(self.bytes(), pos as int),
            pos <= end <= self.bytes().len(),
    {
        find_line_end(self.text.as_str().as_bytes(), pos)
    }

    /// Where the line of the cursor ends.
    pub fn end_of_current_line(&self) -> (end: usize)
        requires
            self.wf(),
        ensures
            end == line_end(self.bytes(), self.spec_cursor()),
            self.spec_cursor() <= end <= self.bytes().len(),
    {
        self.end_of_line(self.cursor_pos)
    }

    /// Removes the text from the cursor to the end of its line, or the line
    /// end itself where the cursor stands at it. The cursor stays.
    pub fn kill_to_end_of_line(&mut self)
        requires
            old(self).wf(),
            old(self).cursor_on_boundary(),
        ensures
            final(self).wf(),
            final(self).bytes() == spliced(
                old(self).bytes(),
                old(self).spec_cursor(),
                kill_forward_end(old(self).bytes(), old(self).spec_cursor()),
                Seq::<u8>::empty(),
            ),
            final(self).spec_cursor() == old(self).spec_cursor(),
            kill_forward_end(old(self).bytes(), old(self).spec_cursor()) == old(self).spec_cursor()
                ==> *final(self) == *old(self),
            kill_forward_end(old(self).bytes(), old(self).spec_cursor()) != old(self).spec_cursor()
                ==> final(self).spec_preferred_col() is None && final(self).spec_wrap_cache()
                is None,
    {
        let eol = self.end_of_current_line();
        let cursor = self.cursor_pos;
        proof {
            reveal_strlit("");
            lemma_line_end_boundary(self.bytes(), cursor as int);
        }
        if cursor == eol {
            if eol < self.len() {
                self.replace_range(Range { start: cursor, end: eol + 1 }, "");
            }
        } else {
            self.replace_range(Range { start: cursor, end: eol }, "");
        }
    }

    /// Removes the text from the beginning of the cursor's line to the
    /// cursor, or the line end before the line where the cursor stands at its
    /// beginning. The cursor goes to where the removed part began.
    pub fn kill_to_beginning_of_line(&mut self)
        requires
            old(self).wf(),
            old(self).cursor_on_boundary(),
        ensures
            final(self).wf(),
            final(self).bytes() == spliced(
                old(self).bytes(),
                kill_backward_start(old(self).bytes(), old(self).spec_cursor()),
                old(self).spec_cursor(),
                Seq::<u8>::empty(),
            ),
            final(self).spec_cursor() == kill_backward_start(
                old(self).bytes(),
                old(self).spec_cursor(),
            ),
            kill_backward_start(old(self).bytes(), old(self).spec_cursor()) == old(self).spec_cursor() ==> *final(self) == *old(self),
            kill_backward_start(old(self).bytes(), old(self).spec_cursor()) != old(self).spec_cursor() ==> final(self).spec_preferred_col() is None && final(self).spec_wrap_cache() is None,
    {
        let bol = self.beginning_of_current_line();
        let cursor = self.cursor_pos;
        proof {
            reveal_strlit("");
            lemma_line_start_boundary(self.bytes(), cursor as int);
            crate::text::lemma_line_start(self.bytes(), cursor as int);
            if bol > 0 {
                crate::text::lemma_ascii_is_whole_char(self.bytes(), bol - 1);
            }
        }
        if cursor == bol {
            if bol > 0 {
                self.replace_range(Range { start: bol - 1, end: bol }, "");
            }
        } else {
            self.replace_range(Range { start: bol, end: cursor }, "");
        }
    }

    /// Moves the cursor to the beginning of its line. If it stands there
    /// already and `move_up_at_bol` is set, it goes to the beginning of the
    /// line before.
    pub fn move_cursor_to_beginning_of_line(&mut self, move_up_at_bol: bool)
        requires
            old(self).wf(),
        ensures
            final(self).wf(),
            final(self).spec_text() == old(self).spec_text(),
            final(self).spec_cursor() == home_target(
                old(self).bytes(),
                old(self).spec_cursor(),
                move_up_at_bol,
            ),
            final(self).spec_preferred_col() is None,
            final(self).spec_wrap_cache() == old(self).spec_wrap_cache(),
    {
        let bol = self.beginning_of_current_line();
        if move_up_at_bol && self.cursor_pos == bol {
            let before = if self.cursor_pos > 0 { self.cursor_pos - 1 } else { 0 };
            let target = self.beginning_of_line(before);
            self.set_cursor(target);
        } else {
            self.set_cursor(bol);
        }
        self.preferred_col = None;
    }

    /// Moves the cursor to the end of its line. If it stands there already
    /// and `move_down_at_eol` is set, it goes to the end of the line behind.
    pub fn move_cursor_to_end_of_line(&mut self, move_down_at_eol: bool)
        requires
            old(self).wf(),
        ensures
            final(self).wf(),
            final(self).spec_text() == old(self).spec_text(),
            final(self).spec_cursor() == end_target(
                old(self).bytes(),
                old(self).spec_cursor(),
                move_down_at_eol,
            ),
            final(self).spec_preferred_col() is None,
            final(self).spec_wrap_cache() == old(self).spec_wrap_cache(),
    {
        let eol = self.end_of_current_line();
        if move_down_at_eol && self.cursor_pos == eol {
            let len = self.len();
            let next_pos = if self.cursor_pos < len { self.cursor_pos + 1 } else { len };
            let target = self.end_of_line(next_pos);
            self.set_cursor(target);
        } else {
            self.set_cursor(eol);
        }
    }
}

/// The offset in a text of the cluster that stands at column `target_col` of
/// the line from `line_start` to `line_end`, or `line_end` where the line is
/// not that wide.
pub open spec fn column_target(bytes: Seq<u8>, line_start: int, line_end: int, target_col: int) -> int {
    line_start + offset_at_column(
        columns_of(bytes.subrange(line_start, line_end)),
        target_col,
        line_end - line_start,
    )
}

impl TextArea {
    /// The column a vertical move aims for: the one remembered, else that of
    /// the cursor on the line that begins at `from`.
    pub open spec fn aimed_col(&self, from: int) -> usize {
        match self.spec_preferred_col() {
            Some(col) => col,
            None => width_between(self.bytes(), from, self.spec_cursor()),
        }
    }

    /// The lines remembered, if any.
    pub open spec fn cached_lines(&self) -> Seq<Range<usize>> {
        match self.spec_wrap_cache() {
            Some(cache) => cache.lines@,
            None => Seq::empty(),
        }
    }

    /// Where a move up takes the cursor: the line to land on, from its start
    /// to its end, and the column to aim for; or none where the cursor is on
    /// the first line. With lines remembered that hold the cursor the move
    /// goes by wrapped lines, else by the lines of the text.
    pub open spec fn up_move(&self) -> Option<(usize, usize, usize)> {
        let lines = self.cached_lines();
        match line_index_by_start(lines, self.spec_cursor()) {
            Some(i) => if i > 0 {
                Some(
                    (
                        lines[i - 1].start,
                        (lines[i - 1].end - 1) as usize,
                        self.aimed_col(lines[i].start as int),
                    ),
                )
            } else {
                None
            },
            None => {
                let bol = line_start(self.bytes(), self.spec_cursor());
                if bol > 0 {
                    Some(
                        (
                            line_start(self.bytes(), bol - 1) as usize,
                            (bol - 1) as usize,
                            self.aimed_col(bol),
                        ),
                    )
                } else {
                    None
                }
            },
        }
    }

    /// Where a move down takes the cursor: the line to land on and the column
    /// to aim for, or none where the cursor is on the last line.
    pub open spec fn down_move(&self) -> Option<(usize, usize, usize)> {
        let lines = self.cached_lines();
        match line_index_by_start(lines, self.spec_cursor()) {
            Some(i) => if i + 1 < lines.len() {
                Some(
                    (
                        lines[i + 1].start,
                        (lines[i + 1].end - 1) as usize,
                        self.aimed_col(lines[i].start as int),
                    ),
                )
            } else {
                None
            },
            None => {
                let eol = line_end(self.bytes(), self.spec_cursor());
                if eol < self.bytes().len() {
                    Some(
                        (
                            (eol + 1) as usize,
                            line_end(self.bytes(), eol + 1) as usize,
                            self.aimed_col(line_start(self.bytes(), self.spec_cursor())),
                        ),
                    )
                } else {
                    None
                }
            },
        }
    }

    /// Wraps the text for `width`, unless the lines remembered are for that
    /// width already.
    fn wrapped_lines(&mut self, width: u16)
        requires
            old(self).wf(),
            width > 0,
        ensures
            final(self).wf(),
            final(self).spec_text() == old(self).spec_text(),
            final(self).spec_cursor() == old(self).spec_cursor(),
            final(self).spec_preferred_col() == old(self).spec_preferred_col(),
            final(self).spec_wrap_cache() is Some,
            final(self).spec_wrap_cache().unwrap().width == width,
            final(self).spec_wrap_cache().unwrap().lines@ == wrapped_ranges(
                old(self).spec_text(),
                width,
            ),
    {
        let needs_recalc = match &self.wrap_cache {
            Some(cache) => cache.width != width,
            None => true,
        };
        if needs_recalc {
            let lines = wrap_ranges(self.text.as_str(), width);
            self.wrap_cache = Some(WrapCache { width, lines });
        }
    }

    /// The number of rows the text takes when wrapped for `width`. The lines
    /// are remembered for the moves that follow.
    pub fn desired_height(&mut self, width: u16) -> (height: u16)
        requires
            old(self).wf(),
            width > 0,
        ensures
            final(self).wf(),
            height == wrapped_ranges(old(self).spec_text(), width).len() as u16,
            final(self).spec_text() == old(self).spec_text(),
            final(self).spec_cursor() == old(self).spec_cursor(),
            final(self).spec_preferred_col() == old(self).spec_preferred_col(),
            final(self).spec_wrap_cache() is Some,
            final(self).spec_wrap_cache().unwrap().width == width,
            final(self).spec_wrap_cache().unwrap().lines@ == wrapped_ranges(
                old(self).spec_text(),
                width,
            ),
    {
        self.wrapped_lines(width);
        match &self.wrap_cache {
            Some(cache) => #[verifier::truncate]
            (cache.lines.len() as u16),
            None => 0,
        }
    }

    /// The column of the cursor on its line.
    pub fn current_display_col(&self) -> (col: usize)
        requires
            self.wf(),
            self.cursor_on_boundary(),
        ensures
            col == width_between(
                self.bytes(),
                line_start(self.bytes(), self.spec_cursor()),
                self.spec_cursor(),
            ),
    {
        let bol = self.beginning_of_current_line();
        proof {
            lemma_line_start_boundary(self.bytes(), self.cursor_pos as int);
        }
        measure(self.text.as_str(), bol, self.cursor_pos)
    }

    /// Puts the cursor on the line from `line_start` to `line_end`, at the
    /// cluster that stands at column `target_col`, or at the end of the line
    /// where it is not that wide.
    pub fn move_to_display_col_on_line(
        &mut self,
        line_start: usize,
        line_end: usize,
        target_col: usize,
    )
        requires
            old(self).wf(),
            line_start <= line_end,
            is_char_boundary(old(self).bytes(), line_start as int),
            is_char_boundary(old(self).bytes(), line_end as int),
        ensures
            final(self).wf(),
            final(self).spec_text() == old(self).spec_text(),
            final(self).spec_cursor() == column_target(
                old(self).bytes(),
                line_start as int,
                line_end as int,
                target_col as int,
            ),
            line_start <= final(self).spec_cursor() <= line_end,
            is_char_boundary(final(self).bytes(), final(self).spec_cursor()),
            final(self).spec_preferred_col() == old(self).spec_preferred_col(),
            final(self).spec_wrap_cache() == old(self).spec_wrap_cache(),
    {
        let line = substring(self.text.as_str(), line_start, line_end);
        let cols = columns(line);
        let offset = column_offset(&cols, target_col, line_end - line_start);
        proof {
            lemma_boundary_in_text(self.bytes(), line_end as int);
            lemma_offset_at_column_from(
                cols@,
                0,
                0,
                target_col as int,
                (line_end - line_start) as int,
            );
            if offset != line_end - line_start {
                let k = choose|k: int| 0 <= k < cols@.len() && offset == (#[trigger] cols@[k]).0;
                vstd::utf8::valid_utf8_split(self.bytes(), line_end as int);
                crate::text::lemma_boundary_in_prefix(
                    self.bytes(),
                    line_start as int,
                    line_end as int,
                );
                vstd::utf8::valid_utf8_split(
                    self.bytes().subrange(0, line_end as int),
                    line_start as int,
                );
                crate::text::lemma_boundary_of_part(
                    self.bytes(),
                    line_start as int,
                    line_end as int,
                    offset as int,
                );
            }
        }
        self.cursor_pos = line_start + offset;
    }

    /// Moves the cursor one line up, keeping to its column as far as the
    /// line above is wide. On the first line the cursor goes to the start of
    /// the text.
    pub fn move_cursor_up(&mut self)
        requires
            old(self).wf(),
            old(self).cursor_on_boundary(),
        ensures
            final(self).wf(),
            final(self).spec_text() == old(self).spec_text(),
            final(self).spec_wrap_cache() == old(self).spec_wrap_cache(),
            match old(self).up_move() {
                Some((line_start, line_end, target_col)) => {
                    &&& final(self).spec_cursor() == column_target(
                        old(self).bytes(),
                        line_start as int,
                        line_end as int,
                        target_col as int,
                    )
                    &&& final(self).spec_preferred_col() == Some(target_col)
                },
                None => final(self).spec_cursor() == 0 && final(self).spec_preferred_col()
                    is None,
            },
            final(self).cursor_on_boundary(),
    {
        let cursor = self.cursor_pos;
        let visual: Option<(usize, Option<(usize, usize)>)> = match &self.wrap_cache {
            Some(cache) => match wrapped_line_index_by_start(&cache.lines, cursor) {
                Some(idx) => {
                    proof {
                        lemma_wrapped_ranges(self.text@, cache.width, idx as int);
                    }
                    let cur_start = cache.lines[idx].start;
                    if idx > 0 {
                        proof {
                            lemma_wrapped_ranges(self.text@, cache.width, idx - 1);
                        }
                        Some(
                            (cur_start, Some((cache.lines[idx - 1].start, cache.lines[idx - 1].end - 1))),
                        )
                    } else {
                        Some((cur_start, None))
                    }
                },
                None => None,
            },
            None => None,
        };
        let (from, target): (usize, Option<(usize, usize)>) = match visual {
            Some(found) => found,
            None => {
                let bol = self.beginning_of_current_line();
                proof {
                    lemma_line_start_boundary(self.bytes(), cursor as int);
                    crate::text::lemma_line_start(self.bytes(), cursor as int);
                }
                if bol > 0 {
                    let prev_nl = bol - 1;
                    let prev_line_start = self.beginning_of_line(prev_nl);
                    proof {
                        lemma_line_start_boundary(self.bytes(), prev_nl as int);
                        crate::text::lemma_ascii_is_whole_char(self.bytes(), prev_nl as int);
                    }
                    (bol, Some((prev_line_start, prev_nl)))
                } else {
                    (bol, None)
                }
            },
        };
        let target_col = match self.preferred_col {
            Some(col) => col,
            None => measure(self.text.as_str(), from, cursor),
        };
        match target {
            Some((line_start, line_end)) => {
                self.preferred_col = Some(target_col);
                self.move_to_display_col_on_line(line_start, line_end, target_col);
            },
            None => {
                self.cursor_pos = 0;
                self.preferred_col = None;
            },
        }
    }

    /// Moves the cursor one line down, keeping to its column as far as the
    /// line below is wide. On the last line the cursor goes to the end of the
    /// text.
    pub fn move_cursor_down(&mut self)
        requires
            old(self).wf(),
            old(self).cursor_on_boundary(),
        ensures
            final(self).wf(),
            final(self).spec_text() == old(self).spec_text(),
            final(self).spec_wrap_cache() == old(self).spec_wrap_cache(),
            match old(self).down_move() {
                Some((line_start, line_end, target_col)) => {
                    &&& final(self).spec_cursor() == column_target(
                        old(self).bytes(),
                        line_start as int,
                        line_end as int,
                        target_col as int,
                    )
                    &&& final(self).spec_preferred_col() == Some(target_col)
                },
                None => final(self).spec_cursor() == old(self).bytes().len()
                    && final(self).spec_preferred_col() is None,
            },
            final(self).cursor_on_boundary(),
    {
        let cursor = self.cursor_pos;
        let len = self.len();
        let visual: Option<(usize, Option<(usize, usize)>)> = match &self.wrap_cache {
            Some(cache) => match wrapped_line_index_by_start(&cache.lines, cursor) {
                Some(idx) => {
                    proof {
                        lemma_wrapped_ranges(self.text@, cache.width, idx as int);
                    }
                    let cur_start = cache.lines[idx].start;
                    let count = cache.lines.len();
                    if idx < count - 1 {
                        proof {
                            lemma_wrapped_ranges(self.text@, cache.width, idx + 1);
                        }
                        Some(
                            (cur_start, Some((cache.lines[idx + 1].start, cache.lines[idx + 1].end - 1))),
                        )
                    } else {
                        Some((cur_start, None))
                    }
                },
                None => None,
            },
            None => None,
        };
        let (from, target): (usize, Option<(usize, usize)>) = match visual {
            Some(found) => found,
            None => {
                let bol = self.beginning_of_current_line();
                let eol = self.end_of_current_line();
                proof {
                    lemma_line_start_boundary(self.bytes(), cursor as int);
                    lemma_line_end_boundary(self.bytes(), cursor as int);
                }
                if eol < len {
                    let next_line_start = eol + 1;
                    let next_line_end = self.end_of_line(next_line_start);
                    proof {
                        lemma_line_end_boundary(self.bytes(), next_line_start as int);
                    }
                    (bol, Some((next_line_start, next_line_end)))
                } else {
                    (bol, None)
                }
            },
        };
        let target_col = match self.preferred_col {
            Some(col) => col,
            None => measure(self.text.as_str(), from, cursor),
        };
        match target {
            Some((line_start, line_end)) => {
                self.preferred_col = Some(target_col);
                self.move_to_display_col_on_line(line_start, line_end, target_col);
            },
            None => {
                proof {
                    vstd::utf8::is_char_boundary_start_end_of_seq(self.bytes());
                }
                self.cursor_pos = len;
                self.preferred_col = None;
            },
        }
    }
}

impl TextArea {
    /// Where the word before the cursor begins.
    pub fn beginning_of_previous_word(&self) -> (start: usize)
        requires
            self.wf(),
        ensures
            start == prev_word_start(self.spec_text(), self.spec_cursor()),
            start <= self.spec_cursor(),
    {
        crate::words::beginning_of_previous_word(self.text.as_str(), self.cursor_pos)
    }

    /// Where the word at or behind the cursor ends.
    pub fn end_of_next_word(&self) -> (end: usize)
        requires
            self.wf(),
        ensures
            end == next_word_end(self.spec_text(), self.spec_cursor()),
            self.spec_cursor() <= end <= self.bytes().len(),
    {
        crate::words::end_of_next_word(self.text.as_str(), self.cursor_pos)
    }

    /// Removes the text from the beginning of the word before the cursor to
    /// the cursor, which goes to where the removed part began. The part has
    /// to begin at a character boundary, which it does unless white space of
    /// more than one byte stands before the word.
    pub fn delete_backward_word(&mut self)
        requires
            old(self).wf(),
            old(self).cursor_on_boundary(),
            is_char_boundary(
                old(self).bytes(),
                prev_word_start(old(self).spec_text(), old(self).spec_cursor()),
            ),
        ensures
            final(self).wf(),
            final(self).bytes() == spliced(
                old(self).bytes(),
                prev_word_start(old(self).spec_text(), old(self).spec_cursor()),
                old(self).spec_cursor(),
                Seq::<u8>::empty(),
            ),
            final(self).spec_cursor() == prev_word_start(
                old(self).spec_text(),
                old(self).spec_cursor(),
            ),
            final(self).spec_cursor() == old(self).spec_cursor() ==> *final(self) == *old(self),
            final(self).spec_cursor() != old(self).spec_cursor() ==> final(self).spec_preferred_col() is None && final(self).spec_wrap_cache() is None,
    {
        let start = self.beginning_of_previous_word();
        let cursor = self.cursor_pos;
        proof {
            reveal_strlit("");
        }
        self.replace_range(Range { start, end: cursor }, "");
    }
}

impl TextArea {
    /// Removes the `n` clusters before the cursor, or as many as there are.
    /// The cursor goes to where the removed part began, which has to be a
    /// character boundary: it is one unless the segmentation could not
    /// decide.
    pub fn delete_backward(&mut self, n: usize)
        requires
            old(self).wf(),
            old(self).cursor_on_boundary(),
            is_char_boundary(
                old(self).bytes(),
                backward_target(old(self).spec_text(), old(self).spec_cursor() as usize, n as nat)
                    as int,
            ),
        ensures
            final(self).wf(),
            final(self).bytes() == spliced(
                old(self).bytes(),
                backward_target(old(self).spec_text(), old(self).spec_cursor() as usize, n as nat)
                    as int,
                old(self).spec_cursor(),
                Seq::<u8>::empty(),
            ),
            final(self).spec_cursor() == backward_target(
                old(self).spec_text(),
                old(self).spec_cursor() as usize,
                n as nat,
            ),
            final(self).spec_cursor() == old(self).spec_cursor() ==> *final(self) == *old(self),
            final(self).spec_cursor() != old(self).spec_cursor() ==> final(self).spec_preferred_col() is None && final(self).spec_wrap_cache() is None,
    {
        let cursor = self.cursor_pos;
        proof {
            reveal_strlit("");
        }
        if n == 0 {
            return ;
        }
        let target = step_backward(self.text.as_str(), cursor, n);
        self.replace_range(Range { start: target, end: cursor }, "");
    }

    /// Removes the `n` clusters behind the cursor, or as many as there are.
    /// The cursor stays. The removed part has to end at a character
    /// boundary: it does unless the segmentation could not decide.
    pub fn delete_forward(&mut self, n: usize)
        requires
            old(self).wf(),
            old(self).cursor_on_boundary(),
            is_char_boundary(
                old(self).bytes(),
                forward_target(old(self).spec_text(), old(self).spec_cursor() as usize, n as nat)
                    as int,
            ),
        ensures
            final(self).wf(),
            final(self).bytes() == spliced(
                old(self).bytes(),
                old(self).spec_cursor(),
                forward_target(old(self).spec_text(), old(self).spec_cursor() as usize, n as nat)
                    as int,
                Seq::<u8>::empty(),
            ),
            final(self).spec_cursor() == old(self).spec_cursor(),
            forward_target(old(self).spec_text(), old(self).spec_cursor() as usize, n as nat)
                == old(self).spec_cursor() ==> *final(self) == *old(self),
            forward_target(old(self).spec_text(), old(self).spec_cursor() as usize, n as nat)
                != old(self).spec_cursor() ==> final(self).spec_preferred_col() is None && final(self).spec_wrap_cache() is None,
    {
        let cursor = self.cursor_pos;
        let len = self.len();
        proof {
            reveal_strlit("");
        }
        if n == 0 {
            return ;
        }
        let target = step_forward(self.text.as_str(), cursor, n);
        self.replace_range(Range { start: cursor, end: target }, "");
    }

    /// Moves the cursor to the cluster boundary before it, or to the start
    /// of the text. Where the segmentation cannot decide it goes back one
    /// byte.
    pub fn move_cursor_left(&mut self)
        requires
            old(self).wf(),
            old(self).cursor_on_boundary(),
        ensures
            final(self).wf(),
            final(self).spec_text() == old(self).spec_text(),
            final(self).spec_cursor() == backward_target(
                old(self).spec_text(),
                old(self).spec_cursor() as usize,
                1,
            ),
            final(self).spec_cursor() <= old(self).spec_cursor(),
            final(self).spec_preferred_col() is None,
            final(self).spec_wrap_cache() == old(self).spec_wrap_cache(),
    {
        self.cursor_pos = step_backward(self.text.as_str(), self.cursor_pos, 1);
        self.preferred_col = None;
    }

    /// Moves the cursor to the cluster boundary behind it, or to the end of
    /// the text. Where the segmentation cannot decide it goes on one byte.
    pub fn move_cursor_right(&mut self)
        requires
            old(self).wf(),
            old(self).cursor_on_boundary(),
        ensures
            final(self).wf(),
            final(self).spec_text() == old(self).spec_text(),
            final(self).spec_cursor() == forward_target(
                old(self).spec_text(),
                old(self).spec_cursor() as usize,
                1,
            ),
            old(self).spec_cursor() <= final(self).spec_cursor(),
            final(self).spec_preferred_col() is None,
            final(self).spec_wrap_cache() == old(self).spec_wrap_cache(),
    {
        self.cursor_pos = step_forward(self.text.as_str(), self.cursor_pos, 1);
        self.preferred_col = None;
    }
}

/// How far the view of a text area is scrolled.
#[derive(Debug, Clone, Copy)]
pub struct TextAreaState {
    /// The wrapped line shown in the first row.
    pub scroll: u16,
}

impl Default for TextAreaState {
    fn default() -> (state: TextAreaState)
        ensures
            state.scroll == 0,
    {
        TextAreaState { scroll: 0 }
    }
}

/// A rectangle of cells on the screen.
#[derive(Debug, Clone, Copy, PartialEq, Eq, Structural)]
pub struct Rect {
    /// The column of its left edge.
    pub x: u16,
    /// The row of its top edge.
    pub y: u16,
    /// How many columns it spans.
    pub width: u16,
    /// How many rows it spans.
    pub height: u16,
}

impl Rect {
    /// The rectangle at the given cell with the given size, cut where it
    /// would reach beyond the last column or row that can be counted.
    pub fn new(x: u16, y: u16, width: u16, height: u16) -> (area: Rect)
        ensures
            area.x == x,
            area.y == y,
            area.width == if x + width <= u16::MAX { width } else { (u16::MAX - x) as u16 },
            area.height == if y + height <= u16::MAX { height } else { (u16::MAX - y) as u16 },
    {
        let max_width = u16::MAX - x;
        let max_height = u16::MAX - y;
        Rect {
            x,
            y,
            width: if width <= max_width { width } else { max_width },
            height: if height <= max_height { height } else { max_height },
        }
    }
}

/// The row of the view on which wrapped line `line` stands when the first
/// `scroll` lines are skipped. A row that cannot be counted becomes the
/// first.
pub open spec fn screen_row(line: int, scroll: int) -> u16 {
    let row = if line >= scroll { line - scroll } else { 0 };
    if row <= u16::MAX {
        row as u16
    } else {
        0
    }
}

/// The last line, and one more, of those shown in an area of `area_height`
/// rows that skips the first `scroll` of `total_lines`.
pub open spec fn last_shown(total_lines: int, area_height: int, scroll: int) -> int {
    if scroll + area_height <= total_lines {
        scroll + area_height
    } else {
        total_lines
    }
}

impl TextArea {
    /// The first line to show in an area of `area_height` rows, given the
    /// wrapped lines and the first line shown so far: the cursor's line is
    /// kept in view, and nothing is skipped where everything fits.
    pub fn effective_scroll(
        &self,
        area_height: u16,
        lines: &Vec<Range<usize>>,
        current_scroll: u16,
    ) -> (scroll: u16)
        requires
            lines@.len() <= u16::MAX,
        ensures
            scroll == scroll_for(
                lines@.len() as int,
                match line_index_by_start(lines@, self.spec_cursor()) {
                    Some(i) => i,
                    None => 0,
                },
                area_height as int,
                current_scroll as int,
            ),
    {
        crate::wrap::effective_scroll(lines, self.cursor_pos, area_height, current_scroll)
    }

    /// The first line to show of the text wrapped for `width`, in an area of
    /// `area_height` rows that showed line `current_scroll` first.
    pub open spec fn view_scroll(&self, width: u16, area_height: u16, current_scroll: u16) -> int {
        let lines = wrapped_ranges(self.spec_text(), width);
        scroll_for(
            lines.len() as int,
            match line_index_by_start(lines, self.spec_cursor()) {
                Some(i) => i,
                None => 0,
            },
            area_height as int,
            current_scroll as int,
        )
    }

    /// The cell of the cursor within a view of the text wrapped for `width`:
    /// its column on its wrapped line and the row of that line. None where
    /// no wrapped line holds the cursor.
    pub open spec fn cursor_cell(&self, width: u16, area_height: u16, current_scroll: u16)
        -> Option<(u16, u16)> {
        let lines = wrapped_ranges(self.spec_text(), width);
        match line_index_by_start(lines, self.spec_cursor()) {
            Some(i) => Some(
                (
                    width_between(self.bytes(), lines[i].start as int, self.spec_cursor()) as u16,
                    screen_row(i, self.view_scroll(width, area_height, current_scroll)),
                ),
            ),
            None => None,
        }
    }

    /// Whether the cursor can be placed in `area`: the wrapped lines can be
    /// counted, and the cell of the cursor has a column and a row on screen.
    pub open spec fn cursor_fits(&self, area: Rect, current_scroll: u16) -> bool {
        &&& area.width > 0
        &&& wrapped_ranges(self.spec_text(), area.width).len() <= u16::MAX
        &&& match self.cursor_cell(area.width, area.height, current_scroll) {
            Some((col, row)) => area.x + col <= u16::MAX && area.y + row <= u16::MAX,
            None => true,
        }
    }

    /// Where on screen the cursor stands in `area`, for a view that is not
    /// scrolled.
    pub fn cursor_pos(&mut self, area: Rect) -> (pos: Option<(u16, u16)>)
        requires
            old(self).wf(),
            old(self).cursor_on_boundary(),
            old(self).cursor_fits(area, 0),
        ensures
            final(self).wf(),
            final(self).spec_text() == old(self).spec_text(),
            final(self).spec_cursor() == old(self).spec_cursor(),
            final(self).spec_preferred_col() == old(self).spec_preferred_col(),
            final(self).spec_wrap_cache() is Some,
            final(self).spec_wrap_cache().unwrap().width == area.width,
            match old(self).cursor_cell(area.width, area.height, 0) {
                Some((col, row)) => pos == Some(((area.x + col) as u16, (area.y + row) as u16)),
                None => pos is None,
            },
    {
        let state = TextAreaState::default();
        self.cursor_pos_with_state(area, &state)
    }

    /// Where on screen the cursor stands in `area`, for a view that showed
    /// line `state.scroll` first and is scrolled as far as keeps the cursor
    /// in it.
    pub fn cursor_pos_with_state(&mut self, area: Rect, state: &TextAreaState) -> (pos: Option<
        (u16, u16),
    >)
        requires
            old(self).wf(),
            old(self).cursor_on_boundary(),
            old(self).cursor_fits(area, state.scroll),
        ensures
            final(self).wf(),
            final(self).spec_text() == old(self).spec_text(),
            final(self).spec_cursor() == old(self).spec_cursor(),
            final(self).spec_preferred_col() == old(self).spec_preferred_col(),
            final(self).spec_wrap_cache() is Some,
            final(self).spec_wrap_cache().unwrap().width == area.width,
            match old(self).cursor_cell(area.width, area.height, state.scroll) {
                Some((col, row)) => pos == Some(((area.x + col) as u16, (area.y + row) as u16)),
                None => pos is None,
            },
    {
        self.wrapped_lines(area.width);
        match self.cell_of_cursor(area.height, state.scroll) {
            Some((col, row)) => Some((area.x + col, area.y + row)),
            None => None,
        }
    }

    /// The cell of the cursor among the lines remembered.
    fn cell_of_cursor(&self, area_height: u16, current_scroll: u16) -> (cell: Option<(u16, u16)>)
        requires
            self.wf(),
            self.cursor_on_boundary(),
            self.spec_wrap_cache() is Some,
            self.cached_lines().len() <= u16::MAX,
        ensures
            cell == self.cursor_cell(
                self.spec_wrap_cache().unwrap().width,
                area_height,
                current_scroll,
            ),
    {
        let cursor = self.cursor_pos;
        match &self.wrap_cache {
            Some(cache) => {
                let scroll = crate::wrap::effective_scroll(
                    &cache.lines,
                    cursor,
                    area_height,
                    current_scroll,
                );
                match wrapped_line_index_by_start(&cache.lines, cursor) {
                    Some(i) => {
                        proof {
                            lemma_wrapped_ranges(self.text@, cache.width, i as int);
                        }
                        let col: u16 = #[verifier::truncate]
                        (measure(self.text.as_str(), cache.lines[i].start, cursor) as u16);
                        let row: usize = if i >= scroll as usize {
                            i - scroll as usize
                        } else {
                            0
                        };
                        let row: u16 = if row <= u16::MAX as usize {
                            row as u16
                        } else {
                            0
                        };
                        Some((col, row))
                    },
                    None => None,
                }
            },
            None => None,
        }
    }

    /// Whether the cursor can be placed in `area`: whether it stands between
    /// two characters and its cell has a column and a row on screen.
    pub fn cursor_can_be_placed(&mut self, area: Rect, state: &TextAreaState) -> (fits: bool)
        requires
            old(self).wf(),
        ensures
            final(self).wf(),
            final(self).spec_text() == old(self).spec_text(),
            final(self).spec_cursor() == old(self).spec_cursor(),
            final(self).spec_preferred_col() == old(self).spec_preferred_col(),
            fits == (old(self).cursor_on_boundary() && old(self).cursor_fits(area, state.scroll)),
    {
        if area.width == 0 || !self.text.as_str().is_char_boundary(self.cursor_pos) {
            return false;
        }
        self.wrapped_lines(area.width);
        let count = match &self.wrap_cache {
            Some(cache) => cache.lines.len(),
            None => 0,
        };
        if count > u16::MAX as usize {
            return false;
        }
        match self.cell_of_cursor(area.height, state.scroll) {
            Some((col, row)) => area.x <= u16::MAX - col && area.y <= u16::MAX - row,
            None => true,
        }
    }

    /// The part of the text to draw in each row of a view that shows the
    /// whole text wrapped for the width of `area`: every wrapped line,
    /// without the last byte of its range.
    pub fn render_lines(&mut self, area: Rect) -> (rows: Vec<Range<usize>>)
        requires
            old(self).wf(),
            area.width > 0,
        ensures
            final(self).wf(),
            final(self).spec_text() == old(self).spec_text(),
            final(self).spec_cursor() == old(self).spec_cursor(),
            final(self).spec_preferred_col() == old(self).spec_preferred_col(),
            rows@.len() == wrapped_ranges(old(self).spec_text(), area.width).len(),
            forall|k: int|
                0 <= k < rows@.len() ==> (#[trigger] rows@[k]).start == wrapped_ranges(
                    old(self).spec_text(),
                    area.width,
                )[k].start && rows@[k].end == wrapped_ranges(
                    old(self).spec_text(),
                    area.width,
                )[k].end - 1,
    {
        self.wrapped_lines(area.width);
        let mut rows: Vec<Range<usize>> = Vec::new();
        match &self.wrap_cache {
            Some(cache) => {
                let mut k: usize = 0;
                while k < cache.lines.len()
                    invariant
                        0 <= k <= cache.lines@.len(),
                        cache.lines@ == wrapped_ranges(self.text@, area.width),
                        rows@.len() == k,
                        forall|j: int|
                            0 <= j < k ==> (#[trigger] rows@[j]).start == cache.lines@[j].start
                                && rows@[j].end == cache.lines@[j].end - 1,
                    decreases cache.lines@.len() - k,
                {
                    proof {
                        lemma_wrapped_ranges(self.text@, area.width, k as int);
                    }
                    rows.push(Range { start: cache.lines[k].start, end: cache.lines[k].end - 1 });
                    k = k + 1;
                }
            },
            None => {},
        }
        rows
    }

    /// Scrolls the view as far as keeps the cursor in it, and gives the part
    /// of the text to draw in each row of `area`: the wrapped lines from the
    /// first one shown, as many as there are rows, each without the last
    /// byte of its range.
    pub fn render_lines_with_state(&mut self, area: Rect, state: &mut TextAreaState) -> (rows: Vec<
        Range<usize>,
    >)
        requires
            old(self).wf(),
            area.width > 0,
            wrapped_ranges(old(self).spec_text(), area.width).len() <= u16::MAX,
        ensures
            final(self).wf(),
            final(self).spec_text() == old(self).spec_text(),
            final(self).spec_cursor() == old(self).spec_cursor(),
            final(self).spec_preferred_col() == old(self).spec_preferred_col(),
            final(state).scroll == old(self).view_scroll(
                area.width,
                area.height,
                old(state).scroll,
            ),
            rows@.len() == last_shown(
                wrapped_ranges(old(self).spec_text(), area.width).len() as int,
                area.height as int,
                final(state).scroll as int,
            ) - final(state).scroll,
            forall|k: int|
                0 <= k < rows@.len() ==> (#[trigger] rows@[k]).start == wrapped_ranges(
                    old(self).spec_text(),
                    area.width,
                )[final(state).scroll + k].start && rows@[k].end == wrapped_ranges(
                    old(self).spec_text(),
                    area.width,
                )[final(state).scroll + k].end - 1,
    {
        self.wrapped_lines(area.width);
        let cursor = self.cursor_pos;
        let mut rows: Vec<Range<usize>> = Vec::new();
        match &self.wrap_cache {
            Some(cache) => {
                let scroll = crate::wrap::effective_scroll(
                    &cache.lines,
                    cursor,
                    area.height,
                    state.scroll,
                );
                state.scroll = scroll;
                proof {
                    crate::wrap::lemma_lines_before(cache.lines@, 0, cursor as int);
                }
                let total: u16 = cache.lines.len() as u16;
                let start: usize = scroll as usize;
                let end: usize = if area.height <= total && scroll <= total - area.height {
                    (scroll + area.height) as usize
                } else {
                    total as usize
                };
                let mut k: usize = start;
                while k < end
                    invariant
                        start <= end <= cache.lines@.len(),
                        start <= k <= end,
                        cache.lines@ == wrapped_ranges(self.text@, area.width),
                        rows@.len() == k - start,
                        forall|j: int|
                            0 <= j < k - start ==> (#[trigger] rows@[j]).start
                                == cache.lines@[start + j].start && rows@[j].end
                                == cache.lines@[start + j].end - 1,
                    decreases end - k,
                {
                    proof {
                        lemma_wrapped_ranges(self.text@, area.width, k as int);
                    }
                    rows.push(Range { start: cache.lines[k].start, end: cache.lines[k].end - 1 });
                    k = k + 1;
                }
            },
            None => {},
        }
        rows
    }
}

} // verus!
