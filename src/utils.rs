//! Character positions in a source text.

use vstd::prelude::*;

verus! {

/// The position of a character in a text: its index among the characters, and the line and
/// column it stands on (both counted from zero; a line ends after each `'\n'`).
#[derive(Debug, Default, Clone, Copy, PartialEq, Eq)]
pub struct CharPosition {
    pub index: usize,
    pub line: usize,
    pub column: usize,
}

/// The line on which the character at index `i` of `s` stands.
pub open spec fn line_at(s: Seq<char>, i: int) -> int
    decreases i,
{
    if i <= 0 {
        0
    } else {
        line_at(s, i - 1) + if s[i - 1] == '\n' { 1int } else { 0int }
    }
}

/// The column on which the character at index `i` of `s` stands.
pub open spec fn column_at(s: Seq<char>, i: int) -> int
    decreases i,
{
    if i <= 0 {
        0
    } else if s[i - 1] == '\n' {
        0
    } else {
        column_at(s, i - 1) + 1
    }
}

/// The full position of the character at index `i` of `s`.
pub open spec fn char_position(s: Seq<char>, i: int) -> CharPosition {
    CharPosition { index: i as usize, line: line_at(s, i) as usize, column: column_at(s, i) as usize }
}

/// Line and column never exceed the index.
pub proof fn lemma_line_column_bounded(s: Seq<char>, i: int)
    requires
        0 <= i,
    ensures
        0 <= line_at(s, i) <= i,
        0 <= column_at(s, i) <= i,
    decreases i,
{
    if i > 0 {
        lemma_line_column_bounded(s, i - 1);
    }
}

/// Returns the characters of `s`.
pub(crate) fn chars_of(s: &str) -> (r: Vec<char>)
    ensures
        r@ == s@,
{
    let mut chars: Vec<char> = Vec::new();
    for c in it: s.chars()
        invariant
            chars@ == it.seq().take(it.index() as int),
    {
        chars.push(c);
    }
    assert(chars@ == s@);
    chars
}

/// Returns the position of index `target` of `s`, walking forward from the known position `p`.
pub(crate) fn advance_position(s: &Vec<char>, p: CharPosition, target: usize) -> (r: CharPosition)
    requires
        p == char_position(s@, p.index as int),
        p.index <= target <= s@.len(),
    ensures
        r == char_position(s@, target as int),
{
    let mut q = p;
    while q.index < target
        invariant
            q == char_position(s@, q.index as int),
            q.index <= target <= s@.len(),
        decreases target - q.index,
    {
        proof {
            lemma_line_column_bounded(s@, q.index as int);
        }
        let ch = s[q.index];
        let line = if ch == '\n' { q.line + 1 } else { q.line };
        let column = if ch == '\n' { 0 } else { q.column + 1 };
        q = CharPosition { index: q.index + 1, line, column };
    }
    q
}

/// A cursor over the characters of a text that tracks the position of each character.
#[derive(Debug)]
pub struct EnumerateWithPosition {
    pub(crate) chars: Vec<char>,
    pub(crate) pos: CharPosition,
}

impl View for EnumerateWithPosition {
    /// The whole text, and the index of the next character to be returned.
    type V = (Seq<char>, int);

    closed spec fn view(&self) -> (Seq<char>, int) {
        (self.chars@, self.pos.index as int)
    }
}

impl EnumerateWithPosition {
    #[verifier::type_invariant]
    pub closed spec fn wf(self) -> bool {
        &&& self.pos.index <= self.chars@.len()
        &&& self.pos == char_position(self.chars@, self.pos.index as int)
    }

    /// Creates a cursor at the first character of `s`.
    pub fn new(s: &str) -> (r: Self)
        ensures
            r@ == (s@, 0int),
    {
        let chars = chars_of(s);
        EnumerateWithPosition { chars, pos: CharPosition { index: 0, line: 0, column: 0 } }
    }
    /// The text this cursor walks over.
    pub fn source(&self) -> (r: &Vec<char>)
        ensures
            r@ == self@.0,
    {
        &self.chars
    }

    /// The position of the next character (or of the end of the text).
    pub fn position(&self) -> (r: CharPosition)
        ensures
            r == char_position(self@.0, self@.1),
            r.index == self@.1,
            self@.1 <= self@.0.len() <= usize::MAX,
    {
        proof {
            use_type_invariant(self);
        }
        let len = self.chars.len();
        assert(len == self.chars@.len());
        self.pos
    }

    /// Returns the next character with its position, without moving.
    pub fn peek(&self) -> (r: Option<(CharPosition, char)>)
        ensures
            self@.1 < self@.0.len() ==> r == Some((char_position(self@.0, self@.1), self@.0[self@.1])),
            self@.1 >= self@.0.len() ==> r is None,
    {
        proof {
            use_type_invariant(self);
        }
        if self.pos.index < self.chars.len() {
            Some((self.pos, self.chars[self.pos.index]))
        } else {
            None
        }
    }

    /// Returns the next character with its position and moves past it.
    pub fn next(&mut self) -> (r: Option<(CharPosition, char)>)
        ensures
            final(self)@.0 == old(self)@.0,
            old(self)@.1 < old(self)@.0.len() ==> r == Some(
                (char_position(old(self)@.0, old(self)@.1), old(self)@.0[old(self)@.1]),
            ) && final(self)@.1 == old(self)@.1 + 1,
            old(self)@.1 >= old(self)@.0.len() ==> r is None && final(self)@.1 == old(self)@.1,
    {
        proof {
            use_type_invariant(&*self);
        }
        if self.pos.index < self.chars.len() {
            let old_pos = self.pos;
            let ch = self.chars[self.pos.index];
            proof {
                lemma_line_column_bounded(self.chars@, self.pos.index as int);
            }
            let line = if ch == '\n' { self.pos.line + 1 } else { self.pos.line };
            let column = if ch == '\n' { 0 } else { self.pos.column + 1 };
            self.pos = CharPosition { index: self.pos.index + 1, line, column };
            Some((old_pos, ch))
        } else {
            None
        }
    }

    /// Moves the cursor to index `index` of the text.
    pub(crate) fn seek(&mut self, index: usize)
        requires
            old(self)@.1 <= index <= old(self)@.0.len(),
        ensures
            final(self)@ == (old(self)@.0, index as int),
    {
        while self.pos.index < index
            invariant
                self@.0 == old(self)@.0,
                self@.1 <= index <= self@.0.len(),
            decreases index - self@.1,
        {
            self.next();
        }
    }
}

} // verus!
