//! Fixed-length literals carried by instructions.
//!
//! Identifier and string literals hold up to three ASCII letters or digits; a variable value is
//! an integer in `[-9_999, 99_999]`. The greedy parsers consume every legal character that
//! follows, keep the first ones that fit, and silently drop the rest.

use vstd::prelude::*;
use crate::utils::EnumerateWithPosition;

verus! {

/// Whether `c` is an ASCII letter or digit.
pub open spec fn is_alnum(c: char) -> bool {
    ('0' <= c && c <= '9') || ('a' <= c && c <= 'z') || ('A' <= c && c <= 'Z')
}

/// Whether `c` is an ASCII digit.
pub open spec fn is_digit(c: char) -> bool {
    '0' <= c && c <= '9'
}

/// The value of the digit `c`.
pub open spec fn digit_value(c: char) -> int {
    c as int - '0' as int
}

/// The character of the digit `d`.
pub open spec fn digit_char(d: int) -> char {
    (d + '0' as int) as char
}

/// The index at which the run of letters and digits that starts at `i` in `s` ends.
pub open spec fn alnum_run_end(s: Seq<char>, i: int) -> int
    decreases s.len() - i,
{
    if 0 <= i < s.len() && is_alnum(s[i]) {
        alnum_run_end(s, i + 1)
    } else {
        i
    }
}

/// The index at which the run of digits that starts at `i` in `s` ends.
pub open spec fn digit_run_end(s: Seq<char>, i: int) -> int
    decreases s.len() - i,
{
    if 0 <= i < s.len() && is_digit(s[i]) {
        digit_run_end(s, i + 1)
    } else {
        i
    }
}

/// The index at which a variable value that starts at `i` in `s` ends: an optional leading `-`,
/// then digits.
pub open spec fn value_run_end(s: Seq<char>, i: int) -> int {
    if 0 <= i < s.len() && s[i] == '-' {
        digit_run_end(s, i + 1)
    } else {
        digit_run_end(s, i)
    }
}

/// The number written by the decimal digits `ds`, most significant first.
pub open spec fn digits_value(ds: Seq<char>) -> int
    decreases ds.len(),
{
    if ds.len() == 0 {
        0
    } else {
        digits_value(ds.drop_last()) * 10 + digit_value(ds.last())
    }
}

/// The decimal digits of `n`, most significant first, without leading zeros.
pub open spec fn decimal_digits(n: nat) -> Seq<char>
    decreases n,
{
    if n < 10 {
        seq![digit_char(n as int)]
    } else {
        decimal_digits(n / 10).push(digit_char((n % 10) as int))
    }
}

/// The decimal text of `v`, with a leading `-` when it is negative.
pub open spec fn decimal_text(v: int) -> Seq<char> {
    if v < 0 {
        seq!['-'] + decimal_digits((-v) as nat)
    } else {
        decimal_digits(v as nat)
    }
}

/// Whether the bytes of `b` from index `start` on are 7-bit ASCII.
pub open spec fn ascii_from(b: Seq<u8>, start: int) -> bool {
    forall|k: int| start <= k < b.len() ==> #[trigger] b[k] < 128
}

/// `s` as ASCII bytes.
pub open spec fn ascii_bytes(s: Seq<char>) -> Seq<u8> {
    s.map_values(|c: char| c as u8)
}

#[derive(Copy, Clone, Debug, PartialEq, Eq)]
pub struct IllegalCharError {
    pub(crate) index: usize,
}

impl IllegalCharError {
    pub open(crate) spec fn spec_index(self) -> usize {
        self.index
    }

    /// Returns the index of the illegal char.
    pub fn index(&self) -> (r: usize)
        ensures
            r == self.spec_index(),
    {
        self.index
    }
}

#[derive(Copy, Clone, Debug, PartialEq, Eq)]
pub struct IllegalVariableValueError {}

/// Up to three ASCII letters or digits, the unused bytes zero.
#[derive(Copy, Clone, Debug, PartialEq, Eq)]
pub(crate) struct IdentBytes {
    pub(crate) len: u8,
    pub(crate) b0: u8,
    pub(crate) b1: u8,
    pub(crate) b2: u8,
}

pub(crate) open spec fn alnum_byte(b: u8) -> bool {
    is_alnum(b as char)
}

impl IdentBytes {
    pub(crate) open spec fn wf(self) -> bool {
        &&& self.len <= 3
        &&& if self.len >= 1 { alnum_byte(self.b0) } else { self.b0 == 0 }
        &&& if self.len >= 2 { alnum_byte(self.b1) } else { self.b1 == 0 }
        &&& if self.len >= 3 { alnum_byte(self.b2) } else { self.b2 == 0 }
    }

    pub(crate) open spec fn chars(self) -> Seq<char> {
        seq![self.b0 as char, self.b1 as char, self.b2 as char].take(self.len as int)
    }

    /// The identifier made of the first (at most three) characters of `cs`.
    pub(crate) open spec fn from_chars(cs: Seq<char>) -> IdentBytes {
        let n = if cs.len() < 3 { cs.len() } else { 3 };
        IdentBytes {
            len: n as u8,
            b0: if n >= 1 { cs[0] as u8 } else { 0 },
            b1: if n >= 2 { cs[1] as u8 } else { 0 },
            b2: if n >= 3 { cs[2] as u8 } else { 0 },
        }
    }

    pub(crate) proof fn lemma_from_chars(cs: Seq<char>)
        requires
            forall|k: int| 0 <= k < cs.len() ==> is_alnum(#[trigger] cs[k]),
        ensures
            Self::from_chars(cs).wf(),
            Self::from_chars(cs).chars() == cs.take(if cs.len() < 3 { cs.len() as int } else { 3 }),
    {
        let r = Self::from_chars(cs);
        assert(r.chars() =~= cs.take(if cs.len() < 3 { cs.len() as int } else { 3 }));
    }

    pub(crate) proof fn lemma_from_own_chars(self)
        requires
            self.wf(),
        ensures
            Self::from_chars(self.chars()) == self,
            self.chars().len() <= 3,
            forall|k: int| 0 <= k < self.chars().len() ==> is_alnum(#[trigger] self.chars()[k]),
    {
    }

    /// The identifier read where a run of letters and digits starts.
    pub(crate) proof fn lemma_read(s: Seq<char>, i: int)
        requires
            0 <= i <= s.len(),
        ensures
            i <= alnum_run_end(s, i) <= s.len(),
            Self::from_chars(s.subrange(i, alnum_run_end(s, i))).wf(),
            Self::from_chars(s.subrange(i, alnum_run_end(s, i))).chars() == s.subrange(
                i,
                alnum_run_end(s, i),
            ).take(min_int(3, alnum_run_end(s, i) - i)),
    {
        lemma_alnum_run_end_bounds(s, i);
        lemma_alnum_run_end_chars(s, i);
        let cs = s.subrange(i, alnum_run_end(s, i));
        assert forall|k: int| 0 <= k < cs.len() implies is_alnum(#[trigger] cs[k]) by {
            assert(cs[k] == s[i + k]);
        }
        Self::lemma_from_chars(cs);
    }

    fn byte(&self, k: usize) -> (r: u8)
        requires
            k < 3,
        ensures
            r == seq![self.b0, self.b1, self.b2][k as int],
    {
        if k == 0 {
            self.b0
        } else if k == 1 {
            self.b1
        } else {
            self.b2
        }
    }

    /// Validates the first three bytes of `data`: letters or digits, up to the first zero.
    pub(crate) fn from_array(data: [u8; 4]) -> (r: Result<IdentBytes, IllegalCharError>)
        ensures
            r is Ok <==> array_ident_ok(data@),
            r is Ok ==> r->Ok_0.wf() && r->Ok_0.chars() == ascii_chars(
                data@.take(array_ident_len(data@, 0)),
            ),
            r is Err ==> r->Err_0.index == array_ident_len(data@, 0),
    {
        let mut out = IdentBytes { len: 0, b0: 0, b1: 0, b2: 0 };
        let mut index: usize = 0;
        while index < 3
            invariant
                index <= 3,
                out.wf(),
                out.len == index,
                forall|k: int| 0 <= k < index ==> alnum_byte(#[trigger] data@[k]),
                out.len >= 1 ==> out.b0 == data@[0],
                out.len >= 2 ==> out.b1 == data@[1],
                out.len >= 3 ==> out.b2 == data@[2],
                array_ident_len(data@, 0) == array_ident_len(data@, index as int),
            decreases 3 - index,
        {
            let ch = data[index];
            assert(ch == data@[index as int]);
            if is_alnum_byte(ch) {
                if index == 0 {
                    out.b0 = ch;
                } else if index == 1 {
                    out.b1 = ch;
                } else {
                    out.b2 = ch;
                }
                out.len = out.len + 1;
                index += 1;
            } else if ch == 0 {
                assert(out.chars() =~= ascii_chars(data@.take(index as int)));
                return Ok(out);
            } else {
                return Err(IllegalCharError { index });
            }
        }
        assert(out.chars() =~= ascii_chars(data@.take(index as int)));
        Ok(out)
    }

    /// Parses the run of letters and digits that starts at `i`; returns the identifier made of
    /// its first three characters and the index where the run ends.
    pub(crate) fn parse_at(s: &Vec<char>, i: usize) -> (r: (IdentBytes, usize))
        requires
            i <= s@.len(),
        ensures
            r.1 == alnum_run_end(s@, i as int),
            r.0 == IdentBytes::from_chars(s@.subrange(i as int, r.1 as int)),
            r.0.wf(),
    {
        let mut out = IdentBytes { len: 0, b0: 0, b1: 0, b2: 0 };
        let mut j = i;
        while j < s.len() && is_alnum_char(s[j])
            invariant
                i <= j <= s@.len(),
                alnum_run_end(s@, i as int) == alnum_run_end(s@, j as int),
                forall|k: int| i <= k < j ==> is_alnum(#[trigger] s@[k]),
                out == IdentBytes::from_chars(s@.subrange(i as int, j as int)),
            decreases s@.len() - j,
        {
            let c = s[j];
            if j - i < 3 {
                if j - i == 0 {
                    out.b0 = c as u8;
                } else if j - i == 1 {
                    out.b1 = c as u8;
                } else {
                    out.b2 = c as u8;
                }
                out.len = out.len + 1;
            }
            j += 1;
            proof {
                let a = s@.subrange(i as int, j as int);
                let b = s@.subrange(i as int, j - 1);
                assert(a.len() == b.len() + 1);
                assert(forall|k: int| 0 <= k < b.len() ==> a[k] == b[k]);
                assert(a[b.len() as int] == c);
            }
        }
        proof {
            Self::lemma_from_chars(s@.subrange(i as int, j as int));
        }
        (out, j)
    }

    fn len(&self) -> (r: usize)
        requires
            self.wf(),
        ensures
            r == self.chars().len(),
    {
        self.len as usize
    }

    fn data(&self) -> (r: [u8; 4])
        requires
            self.wf(),
        ensures
            r@ == seq![self.b0, self.b1, self.b2, 0u8],
    {
        [self.b0, self.b1, self.b2, 0]
    }

    fn write(&self, buf: &mut Vec<u8>)
        requires
            self.wf(),
        ensures
            final(buf)@ == old(buf)@ + ascii_bytes(self.chars()),
            ascii_from(final(buf)@, old(buf)@.len() as int),
    {
        let ghost start = buf@;
        let mut k: usize = 0;
        while k < self.len as usize
            invariant
                self.wf(),
                k <= self.len,
                buf@ == start + ascii_bytes(self.chars().take(k as int)),
                ascii_from(buf@, start.len() as int),
            decreases self.len - k,
        {
            let b = self.byte(k);
            assert(b < 128);
            buf.push(b);
            k += 1;
            assert(ascii_bytes(self.chars().take(k as int)) =~= ascii_bytes(self.chars().take(k - 1)).push(b));
        }
        assert(self.chars().take(k as int) =~= self.chars());
    }

    fn dumps_to(&self, s: &mut String)
        requires
            self.wf(),
        ensures
            final(s)@ == old(s)@ + self.chars(),
    {
        let ghost start = s@;
        let mut k: usize = 0;
        while k < self.len as usize
            invariant
                self.wf(),
                k <= self.len,
                s@ == start + self.chars().take(k as int),
            decreases self.len - k,
        {
            let b = self.byte(k);
            push_char(s, b as char);
            k += 1;
            assert(self.chars().take(k as int) =~= self.chars().take(k - 1).push(b as char));
        }
        assert(self.chars().take(k as int) =~= self.chars());
    }
}


/// A literal that can be read greedily from a text and written back.
pub trait Literal: Sized {
    /// Where a literal of this type that starts at `i` in `s` ends.
    spec fn spec_run_end(s: Seq<char>, i: int) -> int;

    /// The literal that the consumed characters `cs` stand for.
    spec fn spec_from_chars(cs: Seq<char>) -> Self;

    /// The text this literal is written as.
    spec fn spec_text(&self) -> Seq<char>;

    /// Greedily reads a literal that starts at index `i` of `s`; returns it and the index of the
    /// first character that is not part of it.
    fn parse_at(s: &Vec<char>, i: usize) -> (r: (Self, usize))
        requires
            i <= s@.len(),
        ensures
            r.1 == Self::spec_run_end(s@, i as int),
            i <= r.1 <= s@.len(),
            r.0 == Self::spec_from_chars(s@.subrange(i as int, r.1 as int)),
    ;

    /// Greedily reads a literal from `enumerate`.
    ///
    /// Consumes `enumerate` up to and including the first character that cannot be part of the
    /// literal, and returns that character with its index (or `None` at the end of the text).
    fn new_from_enumerate(enumerate: &mut EnumerateWithPosition) -> (r: (Self, Option<(usize, char)>))
        ensures
            final(enumerate)@.0 == old(enumerate)@.0,
            ({
                let s = old(enumerate)@.0;
                let i = old(enumerate)@.1;
                let j = Self::spec_run_end(s, i);
                &&& i <= j <= s.len()
                &&& r.0 == Self::spec_from_chars(s.subrange(i, j))
                &&& j < s.len() ==> r.1 == Some((j as usize, s[j])) && final(enumerate)@.1 == j + 1
                &&& j == s.len() ==> r.1 is None && final(enumerate)@.1 == j
            }),
    {
        let start = enumerate.position();
        let (lit, j) = Self::parse_at(enumerate.source(), start.index);
        enumerate.seek(j);
        match enumerate.next() {
            Some((p, c)) => (lit, Some((p.index, c))),
            None => (lit, None),
        }
    }

    /// Appends the text of this literal to `s`.
    fn dumps_to(&self, s: &mut String)
        ensures
            final(s)@ == old(s)@ + self.spec_text(),
    ;

    /// Appends the text of this literal to `buf`, as ASCII bytes.
    fn write(&self, buf: &mut Vec<u8>)
        ensures
            final(buf)@ == old(buf)@ + ascii_bytes(self.spec_text()),
            ascii_from(final(buf)@, old(buf)@.len() as int),
    ;
}

proof fn lemma_alnum_run_end_chars(s: Seq<char>, i: int)
    requires
        0 <= i <= s.len(),
    ensures
        forall|k: int| i <= k < alnum_run_end(s, i) ==> is_alnum(#[trigger] s[k]),
    decreases s.len() - i,
{
    if i < s.len() && is_alnum(s[i]) {
        lemma_alnum_run_end_chars(s, i + 1);
    }
}

proof fn lemma_alnum_run_end_bounds(s: Seq<char>, i: int)
    requires
        0 <= i <= s.len(),
    ensures
        i <= alnum_run_end(s, i) <= s.len(),
    decreases s.len() - i,
{
    if i < s.len() && is_alnum(s[i]) {
        lemma_alnum_run_end_bounds(s, i + 1);
    }
}

/// Label identifier literal.
///
/// Matches the regex `[0-9A-Za-z]{0,3}`.
#[derive(Copy, Clone, Debug, PartialEq, Eq)]
pub struct LabelIdentifierLiteral {
    pub(crate) ident: IdentBytes,
}

impl View for LabelIdentifierLiteral {
    type V = Seq<char>;

    closed spec fn view(&self) -> Seq<char> {
        self.ident.chars()
    }
}

impl LabelIdentifierLiteral {
    pub const MAX_CHAR_LEN: usize = 3;

    /// Reading at `i` of `s` stops at the end of the run of letters and digits that starts
    /// there, and keeps the first three of them.
    pub proof fn lemma_read(s: Seq<char>, i: int)
        requires
            0 <= i <= s.len(),
        ensures
            <Self as Literal>::spec_run_end(s, i) == alnum_run_end(s, i),
            i <= alnum_run_end(s, i) <= s.len(),
            <Self as Literal>::spec_from_chars(s.subrange(i, alnum_run_end(s, i))).wf(),
            <Self as Literal>::spec_from_chars(s.subrange(i, alnum_run_end(s, i)))@ == s.subrange(
                i,
                alnum_run_end(s, i),
            ).take(min_int(3, alnum_run_end(s, i) - i)),
    {
        IdentBytes::lemma_read(s, i);
    }

    /// A literal holds at most three characters, each a letter or digit.
    pub proof fn lemma_view(self)
        requires
            self.wf(),
        ensures
            self@.len() <= 3,
            forall|k: int| 0 <= k < self@.len() ==> is_alnum(#[trigger] self@[k]),
    {
        self.ident.lemma_from_own_chars();
    }

    /// Two literals with the same characters are the same literal.
    pub proof fn lemma_view_injective(x: Self, y: Self)
        requires
            x.wf(),
            y.wf(),
            x@ == y@,
        ensures
            x == y,
    {
        x.ident.lemma_from_own_chars();
        y.ident.lemma_from_own_chars();
    }

    /// The empty literal, as read from no characters at all.
    pub(crate) fn empty() -> (r: Self)
        ensures
            r == <Self as Literal>::spec_from_chars(Seq::empty()),
    {
        LabelIdentifierLiteral { ident: IdentBytes { len: 0, b0: 0, b1: 0, b2: 0 } }
    }

    #[verifier::type_invariant]
    pub closed spec fn wf(self) -> bool {
        self.ident.wf()
    }

    /// Creates a new literal from `[u8; 4]`, ignoring the last element: the letters or digits
    /// up to the first zero.
    ///
    /// # Errors
    ///
    /// If one of the first three bytes, before any zero, is not a letter or digit, an
    /// [`IllegalCharError`] with its index is returned.
    pub fn new_from_array(data: [u8; 4]) -> (r: Result<Self, IllegalCharError>)
        ensures
            r is Ok <==> array_ident_ok(data@),
            r is Ok ==> r->Ok_0@ == ascii_chars(data@.take(array_ident_len(data@, 0))),
            r is Err ==> r->Err_0.spec_index() == array_ident_len(data@, 0),
    {
        match IdentBytes::from_array(data) {
            Ok(ident) => Ok(LabelIdentifierLiteral { ident }),
            Err(e) => Err(e),
        }
    }

    /// Returns the length of this literal.
    pub fn len(&self) -> (r: usize)
        ensures
            r == self@.len(),
            r <= 3,
            forall|k: int| 0 <= k < self@.len() ==> is_alnum(#[trigger] self@[k]),
    {
        proof {
            use_type_invariant(self);
            self.ident.lemma_from_own_chars();
        }
        proof {
            use_type_invariant(self);
        }
        self.ident.len()
    }

    /// Checks if this literal is empty.
    #[must_use]
    pub fn is_empty(&self) -> (r: bool)
        ensures
            r == (self@.len() == 0),
    {
        proof {
            use_type_invariant(self);
        }
        self.ident.len == 0
    }

    /// Returns the underlying data: the characters as bytes, then zeros.
    ///
    /// The last element of the array is always zero.
    pub fn data(&self) -> (r: [u8; 4])
        ensures
            r@.len() == 4,
            forall|k: int| 0 <= k < 4 ==> #[trigger] r@[k] == if k < self@.len() { self@[k] as u8 } else { 0u8 },
            self@.len() <= 3,
            forall|k: int| 0 <= k < self@.len() ==> is_alnum(#[trigger] self@[k]) && r@[k] != 0,
    {
        proof {
            use_type_invariant(self);
            self.ident.lemma_from_own_chars();
        }
        proof {
            use_type_invariant(self);
        }
        self.ident.data()
    }
}

impl Literal for LabelIdentifierLiteral {
    open spec fn spec_run_end(s: Seq<char>, i: int) -> int {
        alnum_run_end(s, i)
    }

    closed spec fn spec_from_chars(cs: Seq<char>) -> Self {
        LabelIdentifierLiteral { ident: IdentBytes::from_chars(cs) }
    }

    open spec fn spec_text(&self) -> Seq<char> {
        self@
    }

    fn parse_at(s: &Vec<char>, i: usize) -> (r: (Self, usize)) {
        let (ident, j) = IdentBytes::parse_at(s, i);
        proof {
            lemma_alnum_run_end_bounds(s@, i as int);
        }
        (LabelIdentifierLiteral { ident }, j)
    }

    fn dumps_to(&self, s: &mut String) {
        proof {
            use_type_invariant(self);
        }
        self.ident.dumps_to(s)
    }

    fn write(&self, buf: &mut Vec<u8>) {
        proof {
            use_type_invariant(self);
        }
        self.ident.write(buf)
    }
}

/// String literal.
///
/// Matches the regex `[0-9A-Za-z]{0,3}`.
#[derive(Copy, Clone, Debug, PartialEq, Eq)]
pub struct StringLiteral {
    pub(crate) ident: IdentBytes,
}

impl View for StringLiteral {
    type V = Seq<char>;

    closed spec fn view(&self) -> Seq<char> {
        self.ident.chars()
    }
}

impl StringLiteral {
    pub const MAX_CHAR_LEN: usize = 3;

    /// Reading at `i` of `s` stops at the end of the run of letters and digits that starts
    /// there, and keeps the first three of them.
    pub proof fn lemma_read(s: Seq<char>, i: int)
        requires
            0 <= i <= s.len(),
        ensures
            <Self as Literal>::spec_run_end(s, i) == alnum_run_end(s, i),
            i <= alnum_run_end(s, i) <= s.len(),
            <Self as Literal>::spec_from_chars(s.subrange(i, alnum_run_end(s, i))).wf(),
            <Self as Literal>::spec_from_chars(s.subrange(i, alnum_run_end(s, i)))@ == s.subrange(
                i,
                alnum_run_end(s, i),
            ).take(min_int(3, alnum_run_end(s, i) - i)),
    {
        IdentBytes::lemma_read(s, i);
    }

    /// A literal holds at most three characters, each a letter or digit.
    pub proof fn lemma_view(self)
        requires
            self.wf(),
        ensures
            self@.len() <= 3,
            forall|k: int| 0 <= k < self@.len() ==> is_alnum(#[trigger] self@[k]),
    {
        self.ident.lemma_from_own_chars();
    }

    /// Two literals with the same characters are the same literal.
    pub proof fn lemma_view_injective(x: Self, y: Self)
        requires
            x.wf(),
            y.wf(),
            x@ == y@,
        ensures
            x == y,
    {
        x.ident.lemma_from_own_chars();
        y.ident.lemma_from_own_chars();
    }

    /// The empty literal, as read from no characters at all.
    pub(crate) fn empty() -> (r: Self)
        ensures
            r == <Self as Literal>::spec_from_chars(Seq::empty()),
    {
        StringLiteral { ident: IdentBytes { len: 0, b0: 0, b1: 0, b2: 0 } }
    }

    #[verifier::type_invariant]
    pub closed spec fn wf(self) -> bool {
        self.ident.wf()
    }

    /// Creates a new literal from `[u8; 4]`, ignoring the last element: the letters or digits
    /// up to the first zero.
    ///
    /// # Errors
    ///
    /// If one of the first three bytes, before any zero, is not a letter or digit, an
    /// [`IllegalCharError`] with its index is returned.
    pub fn new_from_array(data: [u8; 4]) -> (r: Result<Self, IllegalCharError>)
        ensures
            r is Ok <==> array_ident_ok(data@),
            r is Ok ==> r->Ok_0@ == ascii_chars(data@.take(array_ident_len(data@, 0))),
            r is Err ==> r->Err_0.spec_index() == array_ident_len(data@, 0),
    {
        match IdentBytes::from_array(data) {
            Ok(ident) => Ok(StringLiteral { ident }),
            Err(e) => Err(e),
        }
    }

    /// Returns the length of this literal.
    pub fn len(&self) -> (r: usize)
        ensures
            r == self@.len(),
            r <= 3,
            forall|k: int| 0 <= k < self@.len() ==> is_alnum(#[trigger] self@[k]),
    {
        proof {
            use_type_invariant(self);
            self.ident.lemma_from_own_chars();
        }
        proof {
            use_type_invariant(self);
        }
        self.ident.len()
    }

    /// Checks if this literal is empty.
    #[must_use]
    pub fn is_empty(&self) -> (r: bool)
        ensures
            r == (self@.len() == 0),
    {
        proof {
            use_type_invariant(self);
        }
        self.ident.len == 0
    }

    /// Returns the underlying data: the characters as bytes, then zeros.
    ///
    /// The last element of the array is always zero.
    pub fn data(&self) -> (r: [u8; 4])
        ensures
            r@.len() == 4,
            forall|k: int| 0 <= k < 4 ==> #[trigger] r@[k] == if k < self@.len() { self@[k] as u8 } else { 0u8 },
            self@.len() <= 3,
            forall|k: int| 0 <= k < self@.len() ==> is_alnum(#[trigger] self@[k]) && r@[k] != 0,
    {
        proof {
            use_type_invariant(self);
            self.ident.lemma_from_own_chars();
        }
        proof {
            use_type_invariant(self);
        }
        self.ident.data()
    }
}

impl Literal for StringLiteral {
    open spec fn spec_run_end(s: Seq<char>, i: int) -> int {
        alnum_run_end(s, i)
    }

    closed spec fn spec_from_chars(cs: Seq<char>) -> Self {
        StringLiteral { ident: IdentBytes::from_chars(cs) }
    }

    open spec fn spec_text(&self) -> Seq<char> {
        self@
    }

    fn parse_at(s: &Vec<char>, i: usize) -> (r: (Self, usize)) {
        let (ident, j) = IdentBytes::parse_at(s, i);
        proof {
            lemma_alnum_run_end_bounds(s@, i as int);
        }
        (StringLiteral { ident }, j)
    }

    fn dumps_to(&self, s: &mut String) {
        proof {
            use_type_invariant(self);
        }
        self.ident.dumps_to(s)
    }

    fn write(&self, buf: &mut Vec<u8>) {
        proof {
            use_type_invariant(self);
        }
        self.ident.write(buf)
    }
}

/// Variable identifier literal.
///
/// Matches the regex `[0-9A-Za-z]{0,3}`.
#[derive(Copy, Clone, Debug, PartialEq, Eq)]
pub struct VariableIdentifierLiteral {
    pub(crate) ident: IdentBytes,
}

impl View for VariableIdentifierLiteral {
    type V = Seq<char>;

    closed spec fn view(&self) -> Seq<char> {
        self.ident.chars()
    }
}

impl VariableIdentifierLiteral {
    pub const MAX_CHAR_LEN: usize = 3;

    /// Reading at `i` of `s` stops at the end of the run of letters and digits that starts
    /// there, and keeps the first three of them.
    pub proof fn lemma_read(s: Seq<char>, i: int)
        requires
            0 <= i <= s.len(),
        ensures
            <Self as Literal>::spec_run_end(s, i) == alnum_run_end(s, i),
            i <= alnum_run_end(s, i) <= s.len(),
            <Self as Literal>::spec_from_chars(s.subrange(i, alnum_run_end(s, i))).wf(),
            <Self as Literal>::spec_from_chars(s.subrange(i, alnum_run_end(s, i)))@ == s.subrange(
                i,
                alnum_run_end(s, i),
            ).take(min_int(3, alnum_run_end(s, i) - i)),
    {
        IdentBytes::lemma_read(s, i);
    }

    /// A literal holds at most three characters, each a letter or digit.
    pub proof fn lemma_view(self)
        requires
            self.wf(),
        ensures
            self@.len() <= 3,
            forall|k: int| 0 <= k < self@.len() ==> is_alnum(#[trigger] self@[k]),
    {
        self.ident.lemma_from_own_chars();
    }

    /// Two literals with the same characters are the same literal.
    pub proof fn lemma_view_injective(x: Self, y: Self)
        requires
            x.wf(),
            y.wf(),
            x@ == y@,
        ensures
            x == y,
    {
        x.ident.lemma_from_own_chars();
        y.ident.lemma_from_own_chars();
    }

    /// The empty literal, as read from no characters at all.
    pub(crate) fn empty() -> (r: Self)
        ensures
            r == <Self as Literal>::spec_from_chars(Seq::empty()),
    {
        VariableIdentifierLiteral { ident: IdentBytes { len: 0, b0: 0, b1: 0, b2: 0 } }
    }

    #[verifier::type_invariant]
    pub closed spec fn wf(self) -> bool {
        self.ident.wf()
    }

    /// Creates a new literal from `[u8; 4]`, ignoring the last element: the letters or digits
    /// up to the first zero.
    ///
    /// # Errors
    ///
    /// If one of the first three bytes, before any zero, is not a letter or digit, an
    /// [`IllegalCharError`] with its index is returned.
    pub fn new_from_array(data: [u8; 4]) -> (r: Result<Self, IllegalCharError>)
        ensures
            r is Ok <==> array_ident_ok(data@),
            r is Ok ==> r->Ok_0@ == ascii_chars(data@.take(array_ident_len(data@, 0))),
            r is Err ==> r->Err_0.spec_index() == array_ident_len(data@, 0),
    {
        match IdentBytes::from_array(data) {
            Ok(ident) => Ok(VariableIdentifierLiteral { ident }),
            Err(e) => Err(e),
        }
    }

    /// Returns the length of this literal.
    pub fn len(&self) -> (r: usize)
        ensures
            r == self@.len(),
            r <= 3,
            forall|k: int| 0 <= k < self@.len() ==> is_alnum(#[trigger] self@[k]),
    {
        proof {
            use_type_invariant(self);
            self.ident.lemma_from_own_chars();
        }
        proof {
            use_type_invariant(self);
        }
        self.ident.len()
    }

    /// Checks if this literal is empty.
    #[must_use]
    pub fn is_empty(&self) -> (r: bool)
        ensures
            r == (self@.len() == 0),
    {
        proof {
            use_type_invariant(self);
        }
        self.ident.len == 0
    }

    /// Returns the underlying data: the characters as bytes, then zeros.
    ///
    /// The last element of the array is always zero.
    pub fn data(&self) -> (r: [u8; 4])
        ensures
            r@.len() == 4,
            forall|k: int| 0 <= k < 4 ==> #[trigger] r@[k] == if k < self@.len() { self@[k] as u8 } else { 0u8 },
            self@.len() <= 3,
            forall|k: int| 0 <= k < self@.len() ==> is_alnum(#[trigger] self@[k]) && r@[k] != 0,
    {
        proof {
            use_type_invariant(self);
            self.ident.lemma_from_own_chars();
        }
        proof {
            use_type_invariant(self);
        }
        self.ident.data()
    }
}

impl Literal for VariableIdentifierLiteral {
    open spec fn spec_run_end(s: Seq<char>, i: int) -> int {
        alnum_run_end(s, i)
    }

    closed spec fn spec_from_chars(cs: Seq<char>) -> Self {
        VariableIdentifierLiteral { ident: IdentBytes::from_chars(cs) }
    }

    open spec fn spec_text(&self) -> Seq<char> {
        self@
    }

    fn parse_at(s: &Vec<char>, i: usize) -> (r: (Self, usize)) {
        let (ident, j) = IdentBytes::parse_at(s, i);
        proof {
            lemma_alnum_run_end_bounds(s@, i as int);
        }
        (VariableIdentifierLiteral { ident }, j)
    }

    fn dumps_to(&self, s: &mut String) {
        proof {
            use_type_invariant(self);
        }
        self.ident.dumps_to(s)
    }

    fn write(&self, buf: &mut Vec<u8>) {
        proof {
            use_type_invariant(self);
        }
        self.ident.write(buf)
    }
}


/// The value of the consumed characters `cs` of a variable value: the first five characters
/// (the leading `-` counts as one) are kept.
pub open spec fn value_of_chars(cs: Seq<char>) -> int {
    let kept = if cs.len() < 5 { cs.len() as int } else { 5 };
    if cs.len() > 0 && cs[0] == '-' {
        -digits_value(cs.subrange(1, kept))
    } else {
        digits_value(cs.subrange(0, kept))
    }
}

/// Variable value literal.
///
/// The value can be in the range `[-9_999, 99_999]`. Default value is `0`.
#[derive(Copy, Clone, Debug, PartialEq, Eq)]
pub struct VariableValueLiteral {
    pub(crate) data: i32,
}

impl View for VariableValueLiteral {
    type V = int;

    closed spec fn view(&self) -> int {
        self.data as int
    }
}

impl VariableValueLiteral {
    pub const MAX_CHAR_LEN: usize = 5;

    /// Reading at `i` of `s` stops at the end of the optional `-` and the digits after it, and
    /// gives the value of the first five characters read.
    pub proof fn lemma_read(s: Seq<char>, i: int)
        requires
            0 <= i <= s.len(),
        ensures
            <Self as Literal>::spec_run_end(s, i) == value_run_end(s, i),
            i <= value_run_end(s, i) <= s.len(),
            <Self as Literal>::spec_from_chars(s.subrange(i, value_run_end(s, i))).wf(),
            <Self as Literal>::spec_from_chars(s.subrange(i, value_run_end(s, i)))@ == value_of_chars(
                s.subrange(i, value_run_end(s, i)),
            ),
            -9_999 <= value_of_chars(s.subrange(i, value_run_end(s, i))) <= 99_999,
    {
        let neg = i < s.len() && s[i] == '-';
        let d0 = if neg { i + 1 } else { i };
        lemma_digit_run_end_bounds(s, d0);
        let j = value_run_end(s, i);
        let cs = s.subrange(i, j);
        let kept = if cs.len() < 5 { cs.len() as int } else { 5 };
        lemma_pow10_values();
        if neg {
            let ds = cs.subrange(1, kept);
            assert forall|k: int| 0 <= k < ds.len() implies is_digit(#[trigger] ds[k]) by {
                assert(ds[k] == s[i + 1 + k]);
            }
            lemma_digits_value_bound(ds);
            lemma_pow10_mono(ds.len(), 4);
        } else {
            let ds = cs.subrange(0, kept);
            assert forall|k: int| 0 <= k < ds.len() implies is_digit(#[trigger] ds[k]) by {
                assert(ds[k] == s[i + k]);
            }
            lemma_digits_value_bound(ds);
            lemma_pow10_mono(ds.len(), 5);
            if cs.len() > 0 {
                assert(cs[0] == s[i]);
            }
        }
    }

    /// Two values with the same view are the same value.
    pub proof fn lemma_view_injective(x: Self, y: Self)
        requires
            x@ == y@,
        ensures
            x == y,
    {
    }

    /// The zero value, as read from no characters at all.
    pub(crate) fn empty() -> (r: Self)
        ensures
            r == <Self as Literal>::spec_from_chars(Seq::empty()),
    {
        VariableValueLiteral { data: 0 }
    }

    #[verifier::type_invariant]
    pub closed spec fn wf(self) -> bool {
        -9_999 <= self.data <= 99_999
    }

    /// Creates a new literal from `i32`.
    ///
    /// # Errors
    ///
    /// If the given value isn't in the range `[-9_999, 99_999]`, the
    /// [`IllegalVariableValueError`] is returned.
    pub fn new_from_value(val: i32) -> (r: Result<Self, IllegalVariableValueError>)
        ensures
            r is Ok <==> -9_999 <= val <= 99_999,
            r is Ok ==> r->Ok_0@ == val,
    {
        if -9_999 <= val && val <= 99_999 {
            Ok(Self { data: val })
        } else {
            Err(IllegalVariableValueError {})
        }
    }

    /// Returns the value.
    pub fn data(&self) -> (r: i32)
        ensures
            r == self@,
            -9_999 <= r <= 99_999,
    {
        proof {
            use_type_invariant(self);
        }
        self.data
    }
}

proof fn lemma_digits_value_bound(ds: Seq<char>)
    requires
        forall|k: int| 0 <= k < ds.len() ==> is_digit(#[trigger] ds[k]),
    ensures
        0 <= digits_value(ds) < pow10(ds.len()),
    decreases ds.len(),
{
    if ds.len() > 0 {
        let front = ds.drop_last();
        assert forall|k: int| 0 <= k < front.len() implies is_digit(#[trigger] front[k]) by {
            assert(front[k] == ds[k]);
        }
        lemma_digits_value_bound(front);
        assert(is_digit(ds[ds.len() - 1]));
    }
}

/// `10` to the power `n`.
pub open spec fn pow10(n: nat) -> int
    decreases n,
{
    if n == 0 {
        1
    } else {
        10 * pow10((n - 1) as nat)
    }
}

proof fn lemma_digit_run_end_bounds(s: Seq<char>, i: int)
    requires
        0 <= i <= s.len(),
    ensures
        i <= digit_run_end(s, i) <= s.len(),
        forall|k: int| i <= k < digit_run_end(s, i) ==> is_digit(#[trigger] s[k]),
        digit_run_end(s, i) < s.len() ==> !is_digit(s[digit_run_end(s, i)]),
    decreases s.len() - i,
{
    if i < s.len() && is_digit(s[i]) {
        lemma_digit_run_end_bounds(s, i + 1);
    }
}

impl Literal for VariableValueLiteral {
    open spec fn spec_run_end(s: Seq<char>, i: int) -> int {
        value_run_end(s, i)
    }

    closed spec fn spec_from_chars(cs: Seq<char>) -> Self {
        VariableValueLiteral { data: value_of_chars(cs) as i32 }
    }

    open spec fn spec_text(&self) -> Seq<char> {
        decimal_text(self@)
    }

    fn parse_at(s: &Vec<char>, i: usize) -> (r: (Self, usize)) {
        let ghost sv = s@;
        let mut j = i;
        let mut negative = false;
        if j < s.len() && s[j] == '-' {
            negative = true;
            j += 1;
        }
        let d0 = j;
        // digits kept: five characters in all, the sign included
        let cap: usize = if negative { 4 } else { 5 };
        let mut value: i32 = 0;
        proof {
            lemma_digit_run_end_bounds(sv, d0 as int);
        }
        while j < s.len() && is_digit_char(s[j])
            invariant
                d0 <= j <= sv.len(),
                sv == s@,
                cap <= 5,
                digit_run_end(sv, d0 as int) == digit_run_end(sv, j as int),
                i <= digit_run_end(sv, d0 as int) <= sv.len(),
                forall|k: int| d0 <= k < digit_run_end(sv, d0 as int) ==> is_digit(#[trigger] sv[k]),
                value == digits_value(sv.subrange(d0 as int, d0 + min_int(j - d0, cap as int))),
                0 <= value < pow10(min_int(j - d0, cap as int) as nat),
            decreases sv.len() - j,
        {
            let c = s[j];
            if j - d0 < cap {
                proof {
                    let before = sv.subrange(d0 as int, j as int);
                    let after = sv.subrange(d0 as int, j + 1);
                    assert(after.drop_last() =~= before);
                    assert(pow10((j - d0 + 1) as nat) == 10 * pow10((j - d0) as nat));
                    lemma_pow10_values();
                    lemma_pow10_mono((j - d0) as nat, 4);
                }
                value = value * 10 + (c as u32 - '0' as u32) as i32;
            }
            j += 1;
        }
        let ghost cs = sv.subrange(i as int, j as int);
        proof {
            let kept = if cs.len() < 5 { cs.len() as int } else { 5 };
            lemma_pow10_values();
            if negative {
                assert(cs.subrange(1, kept) =~= sv.subrange(d0 as int, d0 + min_int(j - d0, cap as int)));
                lemma_pow10_mono(min_int(j - d0, cap as int) as nat, 4);
            } else {
                assert(cs.subrange(0, kept) =~= sv.subrange(d0 as int, d0 + min_int(j - d0, cap as int)));
                lemma_pow10_mono(min_int(j - d0, cap as int) as nat, 5);
            }
        }
        let data = if negative { -value } else { value };
        (VariableValueLiteral { data }, j)
    }

    fn dumps_to(&self, s: &mut String) {
        proof {
            use_type_invariant(self);
        }
        if self.data < 0 {
            push_char(s, '-');
            dump_decimal((-self.data) as u32, s);
            assert(s@ == old(s)@ + decimal_text(self@));
        } else {
            dump_decimal(self.data as u32, s);
        }
    }

    fn write(&self, buf: &mut Vec<u8>) {
        proof {
            use_type_invariant(self);
        }
        if self.data < 0 {
            buf.push(45);
            write_decimal((-self.data) as u32, buf);
            assert(ascii_bytes(decimal_text(self@)) =~= seq![45u8] + ascii_bytes(decimal_digits((-self@) as nat)));
        } else {
            write_decimal(self.data as u32, buf);
        }
    }
}

proof fn lemma_pow10_values()
    ensures
        pow10(4) == 10_000,
        pow10(5) == 100_000,
{
    assert(pow10(0) == 1);
    assert(pow10(1) == 10);
    assert(pow10(2) == 100);
    assert(pow10(3) == 1000);
}

pub open spec fn min_int(a: int, b: int) -> int {
    if a < b { a } else { b }
}

proof fn lemma_pow10_mono(a: nat, b: nat)
    requires
        a <= b,
    ensures
        1 <= pow10(a) <= pow10(b),
    decreases b,
{
    if b > 0 {
        if a < b {
            lemma_pow10_mono(a, (b - 1) as nat);
        } else {
            lemma_pow10_mono((b - 1) as nat, (b - 1) as nat);
        }
    }
}

pub(crate) fn digit_of(d: u32) -> (r: char)
    requires
        d < 10,
    ensures
        r == digit_char(d as int),
{
    if d == 0 { '0' } else if d == 1 { '1' } else if d == 2 { '2' } else if d == 3 { '3' }
    else if d == 4 { '4' } else if d == 5 { '5' } else if d == 6 { '6' } else if d == 7 { '7' }
    else if d == 8 { '8' } else { '9' }
}

fn write_decimal(n: u32, buf: &mut Vec<u8>)
    ensures
        final(buf)@ == old(buf)@ + ascii_bytes(decimal_digits(n as nat)),
        ascii_from(final(buf)@, old(buf)@.len() as int),
    decreases n,
{
    if n >= 10 {
        write_decimal(n / 10, buf);
    }
    let c = digit_of(n % 10);
    buf.push(c as u8);
    assert(ascii_bytes(decimal_digits(n as nat)) =~= if n >= 10 {
        ascii_bytes(decimal_digits((n / 10) as nat)).push(c as u8)
    } else {
        seq![c as u8]
    });
}

fn dump_decimal(n: u32, s: &mut String)
    ensures
        final(s)@ == old(s)@ + decimal_digits(n as nat),
    decreases n,
{
    if n >= 10 {
        dump_decimal(n / 10, s);
    }
    let c = digit_of(n % 10);
    push_char(s, c);
    assert(decimal_digits(n as nat) =~= if n >= 10 {
        decimal_digits((n / 10) as nat).push(c)
    } else {
        seq![c]
    });
}


proof fn lemma_digit_run_end_at(s: Seq<char>, a: int, b: int)
    requires
        0 <= a <= b <= s.len(),
        forall|k: int| a <= k < b ==> is_digit(#[trigger] s[k]),
        b == s.len() || !is_digit(s[b]),
    ensures
        digit_run_end(s, a) == b,
    decreases b - a,
{
    if a < b {
        lemma_digit_run_end_at(s, a + 1, b);
    }
}

proof fn lemma_alnum_run_end_at(s: Seq<char>, a: int, b: int)
    requires
        0 <= a <= b <= s.len(),
        forall|k: int| a <= k < b ==> is_alnum(#[trigger] s[k]),
        b == s.len() || !is_alnum(s[b]),
    ensures
        alnum_run_end(s, a) == b,
    decreases b - a,
{
    if a < b {
        lemma_alnum_run_end_at(s, a + 1, b);
    }
}

proof fn lemma_digit_char(d: int)
    requires
        0 <= d < 10,
    ensures
        digit_value(digit_char(d)) == d,
        is_digit(digit_char(d)),
{
}

proof fn lemma_decimal_digits(n: nat, m: nat)
    requires
        1 <= m,
        n < pow10(m),
    ensures
        forall|k: int| 0 <= k < decimal_digits(n).len() ==> is_digit(#[trigger] decimal_digits(n)[k]),
        1 <= decimal_digits(n).len() <= m,
        digits_value(decimal_digits(n)) == n,
    decreases n,
{
    let dd = decimal_digits(n);
    lemma_digit_char((n % 10) as int);
    if n < 10 {
        assert(dd.drop_last() =~= Seq::<char>::empty());
        assert(digits_value(dd.drop_last()) == 0);
        assert(dd.last() == digit_char(n as int));
    } else {
        assert(pow10(m) == 10 * pow10((m - 1) as nat));
        lemma_decimal_digits(n / 10, (m - 1) as nat);
        assert(dd.drop_last() =~= decimal_digits(n / 10));
        assert(dd.last() == digit_char((n % 10) as int));
        assert(digits_value(dd) == digits_value(decimal_digits(n / 10)) * 10 + (n % 10));
    }
}

proof fn lemma_ident_round_trip(x: IdentBytes, s: Seq<char>, i: int)
    requires
        x.wf(),
        0 <= i,
        i + x.chars().len() <= s.len(),
        s.subrange(i, i + x.chars().len()) == x.chars(),
        i + x.chars().len() == s.len() || !is_alnum(s[i + x.chars().len()]),
    ensures
        alnum_run_end(s, i) == i + x.chars().len(),
        IdentBytes::from_chars(s.subrange(i, i + x.chars().len())) == x,
        x.chars().len() <= 3,
{
    let t = x.chars();
    assert forall|k: int| i <= k < i + t.len() implies is_alnum(#[trigger] s[k]) by {
        assert(s[k] == s.subrange(i, i + t.len())[k - i]);
    }
    lemma_alnum_run_end_at(s, i, i + t.len());
}

/// A label written out and read back is the same label: read where its text stands, followed
/// by the end of the text or by a character that cannot continue it, it ends right after that
/// text.
pub proof fn lemma_label_round_trip(x: LabelIdentifierLiteral, s: Seq<char>, i: int)
    requires
        x.wf(),
        0 <= i,
        i + x.spec_text().len() <= s.len(),
        s.subrange(i, i + x.spec_text().len()) == x.spec_text(),
        i + x.spec_text().len() == s.len() || !is_alnum(s[i + x.spec_text().len()]),
    ensures
        LabelIdentifierLiteral::spec_run_end(s, i) == i + x.spec_text().len(),
        LabelIdentifierLiteral::spec_from_chars(s.subrange(i, i + x.spec_text().len())) == x,
        x.spec_text().len() <= 3,
{
    lemma_ident_round_trip(x.ident, s, i);
}

/// A string literal written out and read back is the same literal: read where its text stands,
/// followed by the end of the text or by a character that cannot continue it, it ends right
/// after that text.
pub proof fn lemma_string_round_trip(x: StringLiteral, s: Seq<char>, i: int)
    requires
        x.wf(),
        0 <= i,
        i + x.spec_text().len() <= s.len(),
        s.subrange(i, i + x.spec_text().len()) == x.spec_text(),
        i + x.spec_text().len() == s.len() || !is_alnum(s[i + x.spec_text().len()]),
    ensures
        StringLiteral::spec_run_end(s, i) == i + x.spec_text().len(),
        StringLiteral::spec_from_chars(s.subrange(i, i + x.spec_text().len())) == x,
        x.spec_text().len() <= 3,
{
    lemma_ident_round_trip(x.ident, s, i);
}

/// A variable identifier written out and read back is the same identifier: read where its text
/// stands, followed by the end of the text or by a character that cannot continue it, it ends
/// right after that text.
pub proof fn lemma_variable_identifier_round_trip(x: VariableIdentifierLiteral, s: Seq<char>, i: int)
    requires
        x.wf(),
        0 <= i,
        i + x.spec_text().len() <= s.len(),
        s.subrange(i, i + x.spec_text().len()) == x.spec_text(),
        i + x.spec_text().len() == s.len() || !is_alnum(s[i + x.spec_text().len()]),
    ensures
        VariableIdentifierLiteral::spec_run_end(s, i) == i + x.spec_text().len(),
        VariableIdentifierLiteral::spec_from_chars(s.subrange(i, i + x.spec_text().len())) == x,
        x.spec_text().len() <= 3,
{
    lemma_ident_round_trip(x.ident, s, i);
}

/// A variable value written out in decimal and read back is the same value: read where its text
/// stands, followed by the end of the text or by a character that is not a digit, it ends right
/// after that text.
pub proof fn lemma_variable_value_round_trip(x: VariableValueLiteral, s: Seq<char>, i: int)
    requires
        x.wf(),
        0 <= i,
        i + x.spec_text().len() <= s.len(),
        s.subrange(i, i + x.spec_text().len()) == x.spec_text(),
        i + x.spec_text().len() == s.len() || !is_digit(s[i + x.spec_text().len()]),
    ensures
        VariableValueLiteral::spec_run_end(s, i) == i + x.spec_text().len(),
        VariableValueLiteral::spec_from_chars(s.subrange(i, i + x.spec_text().len())) == x,
        1 <= x.spec_text().len() <= 5,
{
    let t = x.spec_text();
    lemma_pow10_values();
    assert forall|k: int| 0 <= k < t.len() implies s[i + k] == t[k] by {
        assert(s[i + k] == s.subrange(i, i + t.len())[k]);
    }
    assert(s.subrange(i, i + t.len()) == t);
    if x.data < 0 {
        let dd = decimal_digits((-x.data) as nat);
        lemma_decimal_digits((-x.data) as nat, 4);
        assert(t =~= seq!['-'] + dd);
        assert forall|k: int| i + 1 <= k < i + t.len() implies is_digit(#[trigger] s[k]) by {
            assert(s[k] == t[k - i]);
            assert(t[k - i] == dd[k - i - 1]);
        }
        assert(s[i] == t[0]);
        assert(t[0] == '-');
        lemma_digit_run_end_at(s, i + 1, i + t.len());
        assert(t.subrange(1, t.len() as int) =~= dd);
    } else {
        let dd = decimal_digits(x.data as nat);
        lemma_decimal_digits(x.data as nat, 5);
        assert forall|k: int| i <= k < i + t.len() implies is_digit(#[trigger] s[k]) by {
            assert(s[k] == t[k - i]);
        }
        assert(is_digit(s[i]));
        lemma_digit_run_end_at(s, i, i + t.len());
        assert(t.subrange(0, t.len() as int) =~= dd);
    }
}

proof fn lemma_digit_run_end_shift(s: Seq<char>, c: char, i: int)
    requires
        0 <= i <= s.len(),
    ensures
        digit_run_end(seq![c] + s, i + 1) == digit_run_end(s, i) + 1,
    decreases s.len() - i,
{
    let s2 = seq![c] + s;
    if i < s.len() {
        assert(s2[i + 1] == s[i]);
        if is_digit(s[i]) {
            lemma_digit_run_end_shift(s, c, i + 1);
        }
    }
}

proof fn lemma_alnum_run_end_shift(s: Seq<char>, c: char, i: int)
    requires
        0 <= i <= s.len(),
    ensures
        alnum_run_end(seq![c] + s, i + 1) == alnum_run_end(s, i) + 1,
    decreases s.len() - i,
{
    let s2 = seq![c] + s;
    if i < s.len() {
        assert(s2[i + 1] == s[i]);
        if is_alnum(s[i]) {
            lemma_alnum_run_end_shift(s, c, i + 1);
        }
    }
}

/// Where a literal ends does not depend on what stands before it, and it ends within the text.
pub(crate) proof fn lemma_literal_run_ends(s: Seq<char>, c: char, i: int)
    requires
        0 <= i <= s.len(),
    ensures
        LabelIdentifierLiteral::spec_run_end(seq![c] + s, i + 1) == LabelIdentifierLiteral::spec_run_end(s, i) + 1,
        StringLiteral::spec_run_end(seq![c] + s, i + 1) == StringLiteral::spec_run_end(s, i) + 1,
        VariableIdentifierLiteral::spec_run_end(seq![c] + s, i + 1) == VariableIdentifierLiteral::spec_run_end(s, i) + 1,
        VariableValueLiteral::spec_run_end(seq![c] + s, i + 1) == VariableValueLiteral::spec_run_end(s, i) + 1,
        i <= LabelIdentifierLiteral::spec_run_end(s, i) <= s.len(),
        i <= StringLiteral::spec_run_end(s, i) <= s.len(),
        i <= VariableIdentifierLiteral::spec_run_end(s, i) <= s.len(),
        i <= VariableValueLiteral::spec_run_end(s, i) <= s.len(),
{
    lemma_alnum_run_end_shift(s, c, i);
    lemma_alnum_run_end_bounds(s, i);
    let s2 = seq![c] + s;
    if i < s.len() {
        assert(s2[i + 1] == s[i]);
    }
    if i < s.len() && s[i] == '-' {
        lemma_digit_run_end_shift(s, c, i + 1);
        lemma_digit_run_end_bounds(s, i + 1);
    } else {
        lemma_digit_run_end_shift(s, c, i);
        lemma_digit_run_end_bounds(s, i);
    }
}

/// The bytes `bs` read as characters.
pub open spec fn ascii_chars(bs: Seq<u8>) -> Seq<char> {
    bs.map_values(|b: u8| b as char)
}

/// The number of leading letters or digits among the first three bytes of `d`, from `k` on.
pub open spec fn array_ident_len(d: Seq<u8>, k: int) -> int
    decreases 3 - k,
{
    if k >= 3 || k < 0 || !is_alnum(d[k] as char) {
        k
    } else {
        array_ident_len(d, k + 1)
    }
}

/// Whether the first three bytes of `d` are letters or digits up to the first zero.
pub open spec fn array_ident_ok(d: Seq<u8>) -> bool {
    let n = array_ident_len(d, 0);
    n >= 3 || d[n] == 0
}

fn is_alnum_byte(b: u8) -> (r: bool)
    ensures
        r == is_alnum(b as char),
{
    (48 <= b && b <= 57) || (97 <= b && b <= 122) || (65 <= b && b <= 90)
}

pub(crate) fn is_alnum_char(c: char) -> (r: bool)
    ensures
        r == is_alnum(c),
{
    ('0' <= c && c <= '9') || ('a' <= c && c <= 'z') || ('A' <= c && c <= 'Z')
}

pub(crate) fn is_digit_char(c: char) -> (r: bool)
    ensures
        r == is_digit(c),
{
    '0' <= c && c <= '9'
}

/// Relies on `String::push`: appends one character.
#[verifier::external_body]
pub(crate) fn push_char(s: &mut String, c: char)
    ensures
        final(s)@ == old(s)@.push(c),
{
    s.push(c)
}

} // verus!
