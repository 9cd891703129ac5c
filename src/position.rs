//! Translation of byte offsets into UTF-16 `(line, character)` coordinates.

use vstd::prelude::*;

verus! {

/// Number of bytes that `c` takes in UTF-8.
pub open spec fn utf8_width(c: char) -> nat {
    if (c as u32) < 0x80 {
        1
    } else if (c as u32) < 0x800 {
        2
    } else if (c as u32) < 0x10000 {
        3
    } else {
        4
    }
}

/// Number of UTF-16 code units that `c` takes: two for a character outside the
/// Basic Multilingual Plane, one otherwise.
pub open spec fn utf16_width(c: char) -> nat {
    if (c as u32) < 0x10000 {
        1
    } else {
        2
    }
}

/// Byte offset, in the UTF-8 encoding of `text`, of the character at index `k`.
pub open spec fn byte_offset(text: Seq<char>, k: int) -> nat
    decreases k,
{
    if k <= 0 || text.len() == 0 {
        0
    } else if k > text.len() {
        byte_offset(text, text.len() as int)
    } else {
        byte_offset(text, k - 1) + utf8_width(text[k - 1])
    }
}

/// The UTF-16 `(line, character)` coordinates reached after the first `k`
/// characters of `text`: a `\n` starts a new line, a `\r` counts for nothing,
/// and any other character adds its UTF-16 width to the character count.
pub open spec fn line_col(text: Seq<char>, k: int) -> (nat, nat)
    decreases k,
{
    if k <= 0 || text.len() == 0 {
        (0, 0)
    } else if k > text.len() {
        line_col(text, text.len() as int)
    } else {
        let (line, col) = line_col(text, k - 1);
        let c = text[k - 1];
        if c == '\n' {
            (line + 1, 0)
        } else if c == '\r' {
            (line, col)
        } else {
            (line, col + utf16_width(c))
        }
    }
}

/// Index of the character at which a forward scan from index `from` stops when
/// looking for byte offset `target`: the first index at or after `from` whose
/// byte offset is `target`, or the end of the text when there is none.
pub open spec fn stop_index(text: Seq<char>, from: int, target: int) -> int
    decreases text.len() - from,
{
    if from >= text.len() {
        text.len() as int
    } else if byte_offset(text, from) == target {
        from
    } else {
        stop_index(text, from + 1, target)
    }
}

/// A position in UTF-16 coordinates, both counted from 0.
#[derive(Clone, Copy, Debug, PartialEq, Eq, Structural)]
pub struct Position {
    pub line: u32,
    pub character: u32,
}

impl Position {
    pub open spec fn coords(self) -> (nat, nat) {
        (self.line as nat, self.character as nat)
    }
}

/// A range of text between two positions.
#[derive(Clone, Copy, Debug, PartialEq, Eq, Structural)]
pub struct Span {
    pub start: Position,
    pub end: Position,
}

impl Span {
    /// The span used for an import whose location is unknown.
    pub fn unknown() -> (r: Span)
        ensures
            r.start.coords() == (0nat, 0nat),
            r.end.coords() == (0nat, 0nat),
    {
        Span { start: Position { line: 0, character: 0 }, end: Position { line: 0, character: 0 } }
    }
}

pub proof fn lemma_byte_offset_step(text: Seq<char>, k: int)
    requires
        0 <= k < text.len(),
    ensures
        byte_offset(text, k + 1) == byte_offset(text, k) + utf8_width(text[k]),
        line_col(text, k + 1) == ({
            let (line, col) = line_col(text, k);
            let c = text[k];
            if c == '\n' {
                (line + 1, 0)
            } else if c == '\r' {
                (line, col)
            } else {
                (line, col + utf16_width(c))
            }
        }),
{
}

/// Line and character counts never exceed the byte offset that they describe.
pub proof fn lemma_line_col_bounded(text: Seq<char>, k: int)
    requires
        0 <= k <= text.len(),
    ensures
        line_col(text, k).0 + line_col(text, k).1 <= byte_offset(text, k),
    decreases k,
{
    if k > 0 {
        lemma_line_col_bounded(text, k - 1);
        lemma_byte_offset_step(text, k - 1);
    }
}

/// Byte offsets grow with the character index.
pub proof fn lemma_byte_offset_monotone(text: Seq<char>, j: int, k: int)
    requires
        0 <= j <= k <= text.len(),
    ensures
        byte_offset(text, j) + (k - j) <= byte_offset(text, k),
    decreases k - j,
{
    if j < k {
        lemma_byte_offset_monotone(text, j, k - 1);
        lemma_byte_offset_step(text, k - 1);
    }
}

/// A carriage return moves neither the line nor the character count, so a
/// `\r` before a `\n` contributes nothing.
pub proof fn lemma_carriage_return_ignored(text: Seq<char>, k: int)
    requires
        0 <= k < text.len(),
        text[k] == '\r',
    ensures
        line_col(text, k + 1) == line_col(text, k),
        k + 1 < text.len() && text[k + 1] == '\n' ==> line_col(text, k + 2) == (
            line_col(text, k).0 + 1,
            0nat,
        ),
{
    lemma_byte_offset_step(text, k);
    if k + 1 < text.len() {
        lemma_byte_offset_step(text, k + 1);
    }
}

/// A character outside the Basic Multilingual Plane adds two to the
/// character count, any other character except line breaks adds one.
pub proof fn lemma_utf16_width_counted(text: Seq<char>, k: int)
    requires
        0 <= k < text.len(),
        text[k] != '\n',
        text[k] != '\r',
    ensures
        line_col(text, k + 1).0 == line_col(text, k).0,
        line_col(text, k + 1).1 == line_col(text, k).1 + if (text[k] as u32) < 0x10000 {
            1nat
        } else {
            2nat
        },
{
    lemma_byte_offset_step(text, k);
}

fn utf8_width_of(c: char) -> (r: u32)
    ensures
        r == utf8_width(c),
{
    let u = c as u32;
    if u < 0x80 {
        1
    } else if u < 0x800 {
        2
    } else if u < 0x10000 {
        3
    } else {
        4
    }
}

fn utf16_width_of(c: char) -> (r: u32)
    ensures
        r == utf16_width(c),
{
    if (c as u32) < 0x10000 {
        1
    } else {
        2
    }
}

/// Largest UTF-8 length of a text whose positions can be addressed.
pub const MAX_TEXT_BYTES: u64 = 0xffff_ffff;

/// A forward-only cursor over one document's text that turns a non-decreasing
/// sequence of byte offsets into UTF-16 positions in a single pass.
pub struct Utf16Cursor {
    chars: Vec<char>,
    index: usize,
    offset: u32,
    line: u32,
    character: u32,
}

impl Utf16Cursor {
    /// The characters of the text being scanned.
    pub closed spec fn text(&self) -> Seq<char> {
        self.chars@
    }

    /// Index of the next character to be consumed.
    pub closed spec fn index(&self) -> int {
        self.index as int
    }

    pub closed spec fn wf(&self) -> bool {
        &&& self.index <= self.chars@.len()
        &&& byte_offset(self.chars@, self.chars@.len() as int) <= MAX_TEXT_BYTES
        &&& self.offset == byte_offset(self.chars@, self.index as int)
        &&& (self.line as nat, self.character as nat) == line_col(self.chars@, self.index as int)
    }

    /// A cursor at the start of `text`, or `None` when the UTF-8 length of the
    /// text exceeds what a `u32` offset can address.
    pub fn new(text: Vec<char>) -> (r: Option<Utf16Cursor>)
        ensures
            r is Some <==> byte_offset(text@, text@.len() as int) <= MAX_TEXT_BYTES,
            r matches Some(c) ==> c.wf() && c.text() == text@ && c.index() == 0,
    {
        let mut total: u64 = 0;
        let mut i: usize = 0;
        while i < text.len()
            invariant
                i <= text@.len(),
                total == byte_offset(text@, i as int),
                total <= MAX_TEXT_BYTES,
            decreases text@.len() - i,
        {
            proof {
                lemma_byte_offset_step(text@, i as int);
            }
            total = total + utf8_width_of(text[i]) as u64;
            i = i + 1;
            if total > MAX_TEXT_BYTES {
                proof {
                    lemma_byte_offset_monotone(text@, i as int, text@.len() as int);
                }
                return None;
            }
        }
        Some(Utf16Cursor { chars: text, index: 0, offset: 0, line: 0, character: 0 })
    }

    /// Consumes characters until the byte offset `target` is reached, or the
    /// text ends, and returns the position there.
    pub fn advance_to(&mut self, target: u32) -> (r: Position)
        requires
            old(self).wf(),
        ensures
            final(self).wf(),
            final(self).text() == old(self).text(),
            final(self).index() == stop_index(old(self).text(), old(self).index(), target as int),
            r.coords() == line_col(old(self).text(), final(self).index()),
    {
        let ghost text = self.chars@;
        while self.index < self.chars.len() && self.offset != target
            invariant
                self.wf(),
                self.chars@ == text,
                stop_index(text, self.index as int, target as int) == stop_index(
                    text,
                    old(self).index(),
                    target as int,
                ),
            decreases text.len() - self.index,
        {
            let c = self.chars[self.index];
            proof {
                lemma_byte_offset_step(text, self.index as int);
                lemma_byte_offset_monotone(text, self.index as int + 1, text.len() as int);
                lemma_line_col_bounded(text, self.index as int + 1);
            }
            if c == '\n' {
                self.line = self.line + 1;
                self.character = 0;
            } else if c != '\r' {
                self.character = self.character + utf16_width_of(c);
            }
            self.offset = self.offset + utf8_width_of(c);
            self.index = self.index + 1;
        }
        Position { line: self.line, character: self.character }
    }
}

} // verus!
