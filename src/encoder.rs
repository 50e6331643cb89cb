//! Encoding a [`Program`] in the New Text Format.
//!
//! After the magic `$`, each instruction that is not `Empty` is written, in the order of the
//! slots, as the directives that move the decoding position from where the previous instruction
//! left it (the slot after it) to the instruction's slot, then the instruction's token.

use vstd::prelude::*;
use crate::grammar::{instruction_template, template_of, LiteralType, TemplatePiece};
use crate::instruction::{Instruction, InstructionData, InstructionId};
use crate::literals::{ascii_bytes, ascii_from, digit_char, Literal};
use crate::program::{page_start, program_len, row_start, InstructionPosition, Program};

verus! {

/// The page of flat index `i`.
pub open spec fn page_of(i: int) -> int {
    i / 192
}

/// The row on its page of flat index `i`.
pub open spec fn row_of(i: int) -> int {
    (i % 192) / 16
}

/// The column in its row of flat index `i`.
pub open spec fn column_of(i: int) -> int {
    i % 16
}

/// `n` empty columns: `n / 3` underscores, then `n % 3` spaces.
pub open spec fn columns_text(n: int) -> Seq<char> {
    Seq::new((n / 3) as nat, |_k: int| '_') + Seq::new((n % 3) as nat, |_k: int| ' ')
}

/// The run of dots between the two line breaks of [`rows_text`].
pub open spec fn rows_middle(n: int) -> Seq<char> {
    if n >= 5 {
        seq!['.', digit_char(n % 10), '.']
    } else if n >= 2 {
        Seq::new((n - 1) as nat, |_k: int| '.')
    } else {
        Seq::empty()
    }
}

/// A move to the start of the row after `n` empty rows: a line break, then `n - 1` single dots
/// (up to four rows) or `.n.` (`.0.` for ten) and a line break; eleven rows take one more line
/// break in front.
pub open spec fn rows_text(n: int) -> Seq<char>
    decreases n,
{
    if n > 10 {
        seq!['\n'] + rows_text(10)
    } else {
        seq!['\n'] + rows_middle(n) + if n >= 1 {
            seq!['\n']
        } else {
            Seq::empty()
        }
    }
}

/// A move `n` pages forward: `~`, with `\n~` for each further page.
pub open spec fn pages_text(n: int) -> Seq<char>
    decreases n,
{
    if n <= 1 {
        seq!['~']
    } else {
        seq!['~', '\n'] + pages_text(n - 1)
    }
}

/// The directives that move the decoding position from flat index `c` to flat index `t`.
pub open spec fn delta_text(c: int, t: int) -> Seq<char> {
    if c == t {
        Seq::empty()
    } else if row_start(c) == row_start(t) {
        columns_text(t - c)
    } else if page_start(c) == page_start(t) {
        rows_text(row_of(t) - row_of(c) - 1) + columns_text(column_of(t))
    } else {
        pages_text(page_of(t) - page_of(c)) + rows_text(row_of(t)) + columns_text(column_of(t))
    }
}

/// The text of the literal of type `lt` in the payload `data`.
pub open spec fn literal_text(lt: LiteralType, data: InstructionData) -> Seq<char> {
    match (lt, data) {
        (LiteralType::LabelIdentifierLiteral, InstructionData::Label(l)) => l.spec_text(),
        (LiteralType::StringLiteral, InstructionData::String(x)) => x.spec_text(),
        (LiteralType::VariableIdentifierLiteral, InstructionData::VarCmp(n, _)) => n.spec_text(),
        (LiteralType::VariableValueLiteral, InstructionData::VarCmp(_, v)) => v.spec_text(),
        _ => Seq::empty(),
    }
}

/// The template `t` filled in with the literals of `data`.
pub open spec fn render(t: Seq<TemplatePiece>, data: InstructionData) -> Seq<char>
    decreases t.len(),
{
    if t.len() == 0 {
        Seq::empty()
    } else {
        let head = match t[0] {
            TemplatePiece::Char(c) => seq![c],
            TemplatePiece::Literal(lt) => literal_text(lt, data),
        };
        head + render(t.drop_first(), data)
    }
}

/// The token of instruction `ins`.
pub open spec fn token_text(ins: Instruction) -> Seq<char> {
    render(instruction_template(ins.spec_id()), ins.spec_data())
}

/// The text of slots `k..` of `p`, the decoding position being at flat index `cursor`.
pub open spec fn encode_from(p: Seq<Instruction>, k: int, cursor: int) -> Seq<char>
    decreases program_len() - k,
{
    if k < 0 || k >= program_len() {
        Seq::empty()
    } else if p[k].spec_id() == InstructionId::Empty {
        encode_from(p, k + 1, cursor)
    } else {
        delta_text(cursor, k) + token_text(p[k]) + encode_from(p, k + 1, k + 1)
    }
}

/// The New Text Format text of program `p`.
pub open spec fn encode(p: Seq<Instruction>) -> Seq<char> {
    seq!['$'] + encode_from(p, 0, 0)
}

proof fn lemma_ascii_bytes_add(a: Seq<char>, b: Seq<char>)
    ensures
        ascii_bytes(a + b) == ascii_bytes(a) + ascii_bytes(b),
{
    assert(ascii_bytes(a + b) =~= ascii_bytes(a) + ascii_bytes(b));
}

fn push_char(buf: &mut Vec<u8>, c: char)
    requires
        (c as u32) < 128,
    ensures
        final(buf)@ == old(buf)@ + ascii_bytes(seq![c]),
        ascii_from(final(buf)@, old(buf)@.len() as int),
{
    buf.push(c as u8);
    assert(ascii_bytes(seq![c]) =~= seq![c as u8]);
}

impl InstructionPosition {
    /// Writes `n` empty columns.
    pub fn write_empty_columns(n: u8, buf: &mut Vec<u8>)
        ensures
            final(buf)@ == old(buf)@ + ascii_bytes(columns_text(n as int)),
            ascii_from(final(buf)@, old(buf)@.len() as int),
    {
        let mut k: u8 = 0;
        while k < n / 3
            invariant
                k <= n / 3,
                buf@ == old(buf)@ + ascii_bytes(Seq::new(k as nat, |_j: int| '_')),
            decreases n / 3 - k,
        {
            push_char(buf, '_');
            proof {
                lemma_ascii_bytes_add(Seq::new(k as nat, |_j: int| '_'), seq!['_']);
                assert(Seq::new(k as nat, |_j: int| '_') + seq!['_'] =~= Seq::new((k + 1) as nat, |_j: int| '_'));
            }
            k += 1;
        }
        let mut m: u8 = 0;
        while m < n % 3
            invariant
                m <= n % 3,
                buf@ == old(buf)@ + ascii_bytes(Seq::new((n / 3) as nat, |_j: int| '_')) + ascii_bytes(
                    Seq::new(m as nat, |_j: int| ' '),
                ),
            decreases n % 3 - m,
        {
            push_char(buf, ' ');
            proof {
                lemma_ascii_bytes_add(Seq::new(m as nat, |_j: int| ' '), seq![' ']);
                assert(Seq::new(m as nat, |_j: int| ' ') + seq![' '] =~= Seq::new((m + 1) as nat, |_j: int| ' '));
            }
            m += 1;
        }
        proof {
            lemma_ascii_bytes_add(Seq::new((n / 3) as nat, |_j: int| '_'), Seq::new((n % 3) as nat, |_j: int| ' '));
        }
    }

    /// Writes the move to the start of the row after `n` empty rows.
    pub fn write_empty_rows(n: u8, buf: &mut Vec<u8>)
        ensures
            final(buf)@ == old(buf)@ + ascii_bytes(rows_text(n as int)),
            ascii_from(final(buf)@, old(buf)@.len() as int),
        decreases n,
    {
        push_char(buf, '\n');
        if n > 10 {
            Self::write_empty_rows(10, buf);
            proof {
                lemma_ascii_bytes_add(seq!['\n'], rows_text(10));
            }
            return;
        }
        let ghost mid_start = buf@;
        if n >= 5 {
            push_char(buf, '.');
            let d = crate::literals::digit_of((n % 10) as u32);
            push_char(buf, d);
            push_char(buf, '.');
            assert(buf@ =~= mid_start + ascii_bytes(rows_middle(n as int)));
        } else if n >= 2 {
            let mut k: u8 = 1;
            while k < n
                invariant
                    1 <= k <= n,
                    n < 5,
                    buf@ == mid_start + ascii_bytes(Seq::new((k - 1) as nat, |_j: int| '.')),
                decreases n - k,
            {
                push_char(buf, '.');
                proof {
                    lemma_ascii_bytes_add(Seq::new((k - 1) as nat, |_j: int| '.'), seq!['.']);
                    assert(Seq::new((k - 1) as nat, |_j: int| '.') + seq!['.'] =~= Seq::new(k as nat, |_j: int| '.'));
                }
                k += 1;
            }
        } else {
            assert(buf@ =~= mid_start + ascii_bytes(rows_middle(n as int)));
        }
        let ghost end_start = buf@;
        if n >= 1 {
            push_char(buf, '\n');
        }
        proof {
            let tail = if n >= 1 { seq!['\n'] } else { Seq::<char>::empty() };
            assert(buf@ =~= end_start + ascii_bytes(tail));
            lemma_ascii_bytes_add(seq!['\n'], rows_middle(n as int));
            lemma_ascii_bytes_add(seq!['\n'] + rows_middle(n as int), tail);
        }
    }

    /// Writes the move `n` pages forward.
    pub fn write_page_delta(n: u8, buf: &mut Vec<u8>)
        ensures
            final(buf)@ == old(buf)@ + ascii_bytes(pages_text(n as int)),
            ascii_from(final(buf)@, old(buf)@.len() as int),
        decreases n,
    {
        if n <= 1 {
            push_char(buf, '~');
        } else {
            push_char(buf, '~');
            push_char(buf, '\n');
            Self::write_page_delta(n - 1, buf);
            proof {
                assert(seq!['~'] + seq!['\n'] =~= seq!['~', '\n']);
                lemma_ascii_bytes_add(seq!['~'], seq!['\n']);
                lemma_ascii_bytes_add(seq!['~', '\n'], pages_text(n - 1));
            }
        }
    }

    /// Writes the directives that move the decoding position from `self` to `other`.
    pub fn write_delta(&self, other: Self, buf: &mut Vec<u8>)
        requires
            self.spec_index() <= other.spec_index(),
        ensures
            final(buf)@ == old(buf)@ + ascii_bytes(delta_text(self.spec_index(), other.spec_index())),
            ascii_from(final(buf)@, old(buf)@.len() as int),
    {
        proof {
            use_type_invariant(self);
            use_type_invariant(&other);
            self.lemma_index();
            other.lemma_index();
        }
        let (p0, r0, c0) = (self.page(), self.row(), self.column());
        let (p1, r1, c1) = (other.page(), other.row(), other.column());
        if p0 == p1 && r0 == r1 && c0 == c1 {
            assert(ascii_bytes(Seq::<char>::empty()) =~= Seq::<u8>::empty());
            assert(buf@ =~= old(buf)@ + Seq::<u8>::empty());
        } else if p0 == p1 && r0 == r1 {
            Self::write_empty_columns(c1 - c0, buf);
        } else if p0 == p1 {
            Self::write_empty_rows(r1 - r0 - 1, buf);
            Self::write_empty_columns(c1, buf);
            proof {
                lemma_ascii_bytes_add(rows_text(r1 - r0 - 1), columns_text(c1 as int));
            }
        } else {
            Self::write_page_delta(p1 - p0, buf);
            Self::write_empty_rows(r1, buf);
            Self::write_empty_columns(c1, buf);
            proof {
                lemma_ascii_bytes_add(pages_text(p1 - p0), rows_text(r1 as int));
                lemma_ascii_bytes_add(pages_text(p1 - p0) + rows_text(r1 as int), columns_text(c1 as int));
            }
        }
    }
}


/// Writes the literal of type `lt` in the payload `data`.
fn write_literal(lt: LiteralType, data: InstructionData, buf: &mut Vec<u8>)
    ensures
        final(buf)@ == old(buf)@ + ascii_bytes(literal_text(lt, data)),
        ascii_from(final(buf)@, old(buf)@.len() as int),
{
    match (lt, data) {
        (LiteralType::LabelIdentifierLiteral, InstructionData::Label(l)) => l.write(buf),
        (LiteralType::StringLiteral, InstructionData::String(x)) => x.write(buf),
        (LiteralType::VariableIdentifierLiteral, InstructionData::VarCmp(n, _)) => n.write(buf),
        (LiteralType::VariableValueLiteral, InstructionData::VarCmp(_, v)) => v.write(buf),
        _ => {
            assert(ascii_bytes(Seq::<char>::empty()) =~= Seq::<u8>::empty());
            assert(buf@ =~= old(buf)@ + Seq::<u8>::empty());
        },
    }
}

/// Writes the token of instruction `ins`.
fn write_token(ins: &Instruction, buf: &mut Vec<u8>)
    ensures
        final(buf)@ == old(buf)@ + ascii_bytes(token_text(*ins)),
        ascii_from(final(buf)@, old(buf)@.len() as int),
{
    let t = template_of(ins.id());
    let data = ins.data();
    let ghost full = t@;
    let mut k: usize = 0;
    assert(full.subrange(0, full.len() as int) =~= full);
    while k < t.len()
        invariant
            k <= t@.len(),
            full == t@,
            full == instruction_template(ins.spec_id()),
            data == ins.spec_data(),
            ascii_from(buf@, old(buf)@.len() as int),
            old(buf)@ + ascii_bytes(token_text(*ins)) == buf@ + ascii_bytes(
                render(full.subrange(k as int, full.len() as int), data),
            ),
        decreases t@.len() - k,
    {
        let ghost rest = full.subrange(k as int, full.len() as int);
        let ghost before = buf@;
        assert(rest.drop_first() =~= full.subrange(k + 1, full.len() as int));
        assert(rest[0] == full[k as int]);
        match t[k] {
            TemplatePiece::Char(c) => {
                proof {
                    crate::grammar::lemma_template_ascii(ins.spec_id());
                    assert(full[k as int] is Char);
                }
                buf.push(c as u8);
                assert(ascii_bytes(seq![c]) =~= seq![c as u8]);
                assert(buf@ =~= before + ascii_bytes(seq![c]));
            },
            TemplatePiece::Literal(lt) => {
                write_literal(lt, data, buf);
            },
        }
        proof {
            let head = match rest[0] {
                TemplatePiece::Char(c) => seq![c],
                TemplatePiece::Literal(lt) => literal_text(lt, data),
            };
            lemma_ascii_bytes_add(head, render(rest.drop_first(), data));
            assert(buf@ == before + ascii_bytes(head));
        }
        k += 1;
    }
    assert(ascii_bytes(render(full.subrange(k as int, full.len() as int), data)) =~= Seq::<u8>::empty());
    assert(buf@ =~= buf@ + Seq::<u8>::empty());
}

/// A structure that encodes a [`Program`] in the New Text Format.
#[derive(Debug, Clone, Copy)]
pub struct TextFormatSerializer<'p> {
    pub(crate) program: &'p Program,
}

impl<'p> TextFormatSerializer<'p> {
    /// The program this serializer encodes.
    pub closed spec fn spec_program(self) -> Seq<Instruction> {
        self.program@
    }

    /// Creates a new [`TextFormatSerializer`].
    pub fn new(program: &'p Program) -> (r: Self)
        ensures
            r.spec_program() == program@,
    {
        Self { program }
    }

    /// Appends the program, in the New Text Format, to `buf`.
    pub fn serialize(&mut self, buf: &mut Vec<u8>)
        ensures
            final(buf)@ == old(buf)@ + ascii_bytes(encode(old(self).spec_program())),
            ascii_from(final(buf)@, old(buf)@.len() as int),
            *final(self) == *old(self),
    {
        let ghost p = self.program@;
        let slots = self.program.len();
        push_char(buf, '$');
        let mut cursor: usize = 0;
        let mut k: usize = 0;
        proof {
            lemma_ascii_bytes_add(seq!['$'], encode_from(p, 0, 0));
        }
        while k < slots
            invariant
                slots == 3072,
                k <= 3072,
                cursor <= k,
                p == self.program@,
                p.len() == program_len(),
                ascii_from(buf@, old(buf)@.len() as int),
                old(buf)@ + ascii_bytes(encode(p)) == buf@ + ascii_bytes(encode_from(p, k as int, cursor as int)),
            decreases 3072 - k,
        {
            let ins = self.program.get(k);
            if ins.id() != InstructionId::Empty {
                let ghost before = buf@;
                let from = InstructionPosition::from_index(cursor);
                let to = InstructionPosition::from_index(k);
                from.write_delta(to, buf);
                write_token(&ins, buf);
                proof {
                    lemma_ascii_bytes_add(delta_text(cursor as int, k as int), token_text(ins));
                    lemma_ascii_bytes_add(
                        delta_text(cursor as int, k as int) + token_text(ins),
                        encode_from(p, k + 1, k + 1),
                    );
                }
                cursor = k + 1;
            }
            k += 1;
        }
        assert(ascii_bytes(encode_from(p, k as int, cursor as int)) =~= Seq::<u8>::empty());
        assert(buf@ =~= buf@ + Seq::<u8>::empty());
    }
}

} // verus!
