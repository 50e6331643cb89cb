//! Reading one token of the New Text Format.
//!
//! The token at a position is the first entry of the catalog whose template matches there. When
//! none matches, the reader has consumed the longest prefix that some template could still
//! continue; the character after it (at least the first one) starts the next attempt.

use vstd::prelude::*;
use crate::grammar::{
    catalog_entry, catalog_kind, catalog_len, catalog_template, command_count, command_template,
    instruction_template, Command, LiteralType, TemplatePiece, TokenKind,
};
use crate::instruction::{Instruction, InstructionData, InstructionKind};
use crate::literals::{
    LabelIdentifierLiteral, Literal, StringLiteral, VariableIdentifierLiteral, VariableValueLiteral,
};

verus! {

/// The literals read while matching a template.
#[derive(Copy, Clone, Debug)]
pub struct Registers {
    pub label: Option<LabelIdentifierLiteral>,
    pub string: Option<StringLiteral>,
    pub name: Option<VariableIdentifierLiteral>,
    pub value: Option<VariableValueLiteral>,
}

pub open spec fn empty_registers() -> Registers {
    Registers { label: None, string: None, name: None, value: None }
}

/// Where a literal of type `lt` that starts at `i` in `s` ends.
pub open spec fn literal_run_end(lt: LiteralType, s: Seq<char>, i: int) -> int {
    match lt {
        LiteralType::LabelIdentifierLiteral => LabelIdentifierLiteral::spec_run_end(s, i),
        LiteralType::StringLiteral => StringLiteral::spec_run_end(s, i),
        LiteralType::VariableIdentifierLiteral => VariableIdentifierLiteral::spec_run_end(s, i),
        LiteralType::VariableValueLiteral => VariableValueLiteral::spec_run_end(s, i),
    }
}

/// How many characters a literal of type `lt` keeps.
pub open spec fn literal_max_len(lt: LiteralType) -> int {
    match lt {
        LiteralType::VariableValueLiteral => 5,
        _ => 3,
    }
}

/// `regs` with the literal of type `lt` read from the characters `cs`.
pub open spec fn store(regs: Registers, lt: LiteralType, cs: Seq<char>) -> Registers {
    match lt {
        LiteralType::LabelIdentifierLiteral => Registers {
            label: Some(LabelIdentifierLiteral::spec_from_chars(cs)),
            ..regs
        },
        LiteralType::StringLiteral => Registers { string: Some(StringLiteral::spec_from_chars(cs)), ..regs },
        LiteralType::VariableIdentifierLiteral => Registers {
            name: Some(VariableIdentifierLiteral::spec_from_chars(cs)),
            ..regs
        },
        LiteralType::VariableValueLiteral => Registers {
            value: Some(VariableValueLiteral::spec_from_chars(cs)),
            ..regs
        },
    }
}

/// The outcome of matching a template.
pub enum SpecMatch {
    /// It matched up to `end`; `long` is the start of the first literal longer than it keeps.
    Matched(Registers, int, Option<int>),
    /// It failed at this index: the characters before it agreed with the template.
    Failed(int),
}

/// Matches the pieces `t` against `s` from index `i` on.
pub open spec fn match_pieces(
    s: Seq<char>,
    i: int,
    t: Seq<TemplatePiece>,
    regs: Registers,
    long: Option<int>,
) -> SpecMatch
    decreases t.len(),
{
    if t.len() == 0 {
        SpecMatch::Matched(regs, i, long)
    } else {
        match t[0] {
            TemplatePiece::Char(c) => {
                if 0 <= i < s.len() && s[i] == c {
                    match_pieces(s, i + 1, t.drop_first(), regs, long)
                } else {
                    SpecMatch::Failed(i)
                }
            },
            TemplatePiece::Literal(lt) => {
                let j = literal_run_end(lt, s, i);
                let long2 = if long is None && j - i > literal_max_len(lt) {
                    Some(i)
                } else {
                    long
                };
                match_pieces(s, j, t.drop_first(), store(regs, lt, s.subrange(i, j)), long2)
            },
        }
    }
}

/// The outcome of reading a token.
pub enum SpecLex {
    /// Entry kind matched, with these literals, up to `end`.
    Token(TokenKind, Registers, int, Option<int>),
    /// No entry matched; this many characters agreed with some template.
    Failed(int),
}

pub open spec fn combine(p: int, x: SpecLex) -> SpecLex {
    match x {
        SpecLex::Token(..) => x,
        SpecLex::Failed(q) => SpecLex::Failed(if p > q { p } else { q }),
    }
}

/// Tries the catalog entries from `k` on at index `i` of `s`.
pub open spec fn lex_from(s: Seq<char>, i: int, k: int) -> SpecLex
    decreases catalog_len() - k,
{
    if k < 0 || k >= catalog_len() {
        SpecLex::Failed(0)
    } else {
        match match_pieces(s, i, catalog_template(k), empty_registers(), None) {
            SpecMatch::Matched(regs, end, long) => SpecLex::Token(catalog_kind(k), regs, end, long),
            SpecMatch::Failed(at) => combine(at - i, lex_from(s, i, k + 1)),
        }
    }
}

/// The token at index `i` of `s`.
pub open spec fn lex(s: Seq<char>, i: int) -> SpecLex {
    lex_from(s, i, 0)
}

/// A decoded token.
#[derive(Copy, Clone, Debug)]
pub enum InstructionOrCommand {
    Command(Command),
    Instruction(Instruction),
}

/// The payload of kind `kind` made of the literals in `regs`.
pub open spec fn payload(kind: InstructionKind, regs: Registers) -> InstructionData {
    match kind {
        InstructionKind::Simple => InstructionData::Simple,
        InstructionKind::Label => InstructionData::Label(
            match regs.label {
                Some(l) => l,
                None => LabelIdentifierLiteral::spec_from_chars(Seq::empty()),
            },
        ),
        InstructionKind::VarCmp => InstructionData::VarCmp(
            match regs.name {
                Some(n) => n,
                None => VariableIdentifierLiteral::spec_from_chars(Seq::empty()),
            },
            match regs.value {
                Some(v) => v,
                None => VariableValueLiteral::spec_from_chars(Seq::empty()),
            },
        ),
        InstructionKind::String => InstructionData::String(
            match regs.string {
                Some(x) => x,
                None => StringLiteral::spec_from_chars(Seq::empty()),
            },
        ),
    }
}

/// The token that entry kind `kind`, matched with literals `regs`, stands for.
pub open spec fn build_token(kind: TokenKind, regs: Registers) -> InstructionOrCommand {
    match kind {
        TokenKind::Command(c) => InstructionOrCommand::Command(c),
        TokenKind::Instruction(id) => InstructionOrCommand::Instruction(
            Instruction::spec_new(id, payload(id.spec_kind(), regs)),
        ),
    }
}

pub(crate) fn build(kind: TokenKind, regs: Registers) -> (r: InstructionOrCommand)
    ensures
        r == build_token(kind, regs),
{
    match kind {
        TokenKind::Command(c) => InstructionOrCommand::Command(c),
        TokenKind::Instruction(id) => {
            let data = match id.kind() {
                InstructionKind::Simple => InstructionData::Simple,
                InstructionKind::Label => InstructionData::Label(
                    match regs.label {
                        Some(l) => l,
                        None => LabelIdentifierLiteral::empty(),
                    },
                ),
                InstructionKind::VarCmp => InstructionData::VarCmp(
                    match regs.name {
                        Some(n) => n,
                        None => VariableIdentifierLiteral::empty(),
                    },
                    match regs.value {
                        Some(v) => v,
                        None => VariableValueLiteral::empty(),
                    },
                ),
                InstructionKind::String => InstructionData::String(
                    match regs.string {
                        Some(x) => x,
                        None => StringLiteral::empty(),
                    },
                ),
            };
            InstructionOrCommand::Instruction(Instruction { id, data })
        },
    }
}

/// Every template starts with a character.
pub(crate) proof fn lemma_templates_start_with_char(k: int)
    requires
        0 <= k < catalog_len(),
    ensures
        catalog_template(k).len() > 0,
        catalog_template(k)[0] is Char,
{
    if k < command_count() {
        assert(command_template(k).len() > 0 && command_template(k)[0] is Char);
    } else {
        let id = crate::grammar::catalog_id(k - command_count());
        assert(instruction_template(id).len() > 0 && instruction_template(id)[0] is Char);
    }
}

proof fn lemma_lex_from_progress(s: Seq<char>, i: int, k: int)
    ensures
        lex_from(s, i, k) is Failed ==> lex_from(s, i, k)->Failed_0 >= 0,
    decreases catalog_len() - k,
{
    if 0 <= k < catalog_len() {
        lemma_lex_from_progress(s, i, k + 1);
    }
}


pub(crate) open spec fn shift_opt(o: Option<int>) -> Option<int> {
    match o {
        Some(x) => Some(x + 1),
        None => None,
    }
}

pub(crate) open spec fn shift_match(m: SpecMatch) -> SpecMatch {
    match m {
        SpecMatch::Matched(regs, end, long) => SpecMatch::Matched(regs, end + 1, shift_opt(long)),
        SpecMatch::Failed(at) => SpecMatch::Failed(at + 1),
    }
}

pub(crate) open spec fn shift_lex(x: SpecLex) -> SpecLex {
    match x {
        SpecLex::Token(kind, regs, end, long) => SpecLex::Token(kind, regs, end + 1, shift_opt(long)),
        SpecLex::Failed(p) => SpecLex::Failed(p),
    }
}

proof fn lemma_match_shift(
    s: Seq<char>,
    c: char,
    i: int,
    t: Seq<TemplatePiece>,
    regs: Registers,
    long: Option<int>,
)
    requires
        0 <= i <= s.len(),
    ensures
        match_pieces(seq![c] + s, i + 1, t, regs, shift_opt(long)) == shift_match(
            match_pieces(s, i, t, regs, long),
        ),
    decreases t.len(),
{
    let s2 = seq![c] + s;
    if t.len() > 0 {
        match t[0] {
            TemplatePiece::Char(ch) => {
                if i < s.len() {
                    assert(s2[i + 1] == s[i]);
                    lemma_match_shift(s, c, i + 1, t.drop_first(), regs, long);
                }
            },
            TemplatePiece::Literal(lt) => {
                crate::literals::lemma_literal_run_ends(s, c, i);
                let j = literal_run_end(lt, s, i);
                assert(literal_run_end(lt, s2, i + 1) == j + 1);
                assert(s2.subrange(i + 1, j + 1) =~= s.subrange(i, j));
                let long2 = if long is None && j - i > literal_max_len(lt) {
                    Some(i)
                } else {
                    long
                };
                lemma_match_shift(s, c, j, t.drop_first(), store(regs, lt, s.subrange(i, j)), long2);
            },
        }
    }
}

/// The token read at `i` does not depend on what stands before `i`.
pub(crate) proof fn lemma_lex_shift(s: Seq<char>, c: char, i: int, k: int)
    requires
        0 <= i <= s.len(),
    ensures
        lex_from(seq![c] + s, i + 1, k) == shift_lex(lex_from(s, i, k)),
    decreases catalog_len() - k,
{
    if 0 <= k < catalog_len() {
        lemma_match_shift(s, c, i, catalog_template(k), empty_registers(), None);
        lemma_lex_shift(s, c, i, k + 1);
    }
}

/// Reads a literal of type `lt` at index `i` into `regs`.
fn read_literal(lt: LiteralType, s: &Vec<char>, i: usize, regs: Registers) -> (r: (Registers, usize))
    requires
        i <= s@.len(),
    ensures
        r.1 == literal_run_end(lt, s@, i as int),
        i <= r.1 <= s@.len(),
        r.0 == store(regs, lt, s@.subrange(i as int, r.1 as int)),
{
    match lt {
        LiteralType::LabelIdentifierLiteral => {
            let (l, j) = LabelIdentifierLiteral::parse_at(s, i);
            (Registers { label: Some(l), ..regs }, j)
        },
        LiteralType::StringLiteral => {
            let (l, j) = StringLiteral::parse_at(s, i);
            (Registers { string: Some(l), ..regs }, j)
        },
        LiteralType::VariableIdentifierLiteral => {
            let (l, j) = VariableIdentifierLiteral::parse_at(s, i);
            (Registers { name: Some(l), ..regs }, j)
        },
        LiteralType::VariableValueLiteral => {
            let (l, j) = VariableValueLiteral::parse_at(s, i);
            (Registers { value: Some(l), ..regs }, j)
        },
    }
}

fn max_len_of(lt: LiteralType) -> (r: usize)
    ensures
        r == literal_max_len(lt),
{
    match lt {
        LiteralType::VariableValueLiteral => 5,
        _ => 3,
    }
}

pub(crate) enum ExecMatch {
    Matched(Registers, usize, Option<usize>),
    Failed(usize),
}

pub(crate) open spec fn opt_int(o: Option<usize>) -> Option<int> {
    match o {
        Some(x) => Some(x as int),
        None => None,
    }
}

pub(crate) open spec fn match_view(m: ExecMatch) -> SpecMatch {
    match m {
        ExecMatch::Matched(regs, end, long) => SpecMatch::Matched(regs, end as int, opt_int(long)),
        ExecMatch::Failed(at) => SpecMatch::Failed(at as int),
    }
}

/// Matches template `t` at index `i` of `s`.
fn match_template(s: &Vec<char>, i: usize, t: &Vec<TemplatePiece>) -> (r: ExecMatch)
    requires
        i <= s@.len(),
    ensures
        match_view(r) == match_pieces(s@, i as int, t@, empty_registers(), None),
        r matches ExecMatch::Matched(_, end, _) ==> i <= end <= s@.len() && (t@.len() > 0
            && t@[0] is Char ==> end > i),
        r matches ExecMatch::Failed(at) ==> i <= at <= s@.len(),
{
    let mut j = i;
    let mut regs = Registers { label: None, string: None, name: None, value: None };
    let mut long: Option<usize> = None;
    let mut k: usize = 0;
    assert(t@.subrange(0, t@.len() as int) =~= t@);
    while k < t.len()
        invariant
            i <= j <= s@.len(),
            k <= t@.len(),
            match_pieces(s@, i as int, t@, empty_registers(), None) == match_pieces(
                s@,
                j as int,
                t@.subrange(k as int, t@.len() as int),
                regs,
                opt_int(long),
            ),
            k > 0 && t@[0] is Char ==> j > i,
        decreases t@.len() - k,
    {
        let ghost rest = t@.subrange(k as int, t@.len() as int);
        assert(rest.drop_first() =~= t@.subrange(k + 1, t@.len() as int));
        assert(rest[0] == t@[k as int]);
        match t[k] {
            TemplatePiece::Char(c) => {
                if j < s.len() && s[j] == c {
                    j += 1;
                } else {
                    return ExecMatch::Failed(j);
                }
            },
            TemplatePiece::Literal(lt) => {
                let (regs2, j2) = read_literal(lt, s, j, regs);
                if long.is_none() && j2 - j > max_len_of(lt) {
                    long = Some(j);
                }
                regs = regs2;
                j = j2;
            },
        }
        k += 1;
    }
    ExecMatch::Matched(regs, j, long)
}

/// A source text with the token catalog, ready to read tokens from.
pub(crate) struct Lexer {
    pub(crate) chars: Vec<char>,
    pub(crate) catalog: Vec<(TokenKind, Vec<TemplatePiece>)>,
}

pub(crate) enum ExecLex {
    Token(TokenKind, Registers, usize, Option<usize>),
    Failed(usize),
}

pub(crate) open spec fn lex_view(x: ExecLex) -> SpecLex {
    match x {
        ExecLex::Token(kind, regs, end, long) => SpecLex::Token(kind, regs, end as int, opt_int(long)),
        ExecLex::Failed(p) => SpecLex::Failed(p as int),
    }
}

impl Lexer {
    pub(crate) open spec fn wf(self) -> bool {
        &&& self.catalog@.len() == catalog_len()
        &&& forall|k: int|
            0 <= k < catalog_len() ==> (#[trigger] self.catalog@[k]).0 == catalog_kind(k)
                && self.catalog@[k].1@ == catalog_template(k)
    }

    /// Builds the catalog for the text `chars`.
    pub(crate) fn new(chars: Vec<char>) -> (r: Lexer)
        ensures
            r.wf(),
            r.chars@ == chars@,
    {
        let mut catalog: Vec<(TokenKind, Vec<TemplatePiece>)> = Vec::new();
        let mut k: usize = 0;
        while k < 118
            invariant
                k <= 118,
                catalog@.len() == k,
                forall|q: int|
                    0 <= q < k ==> (#[trigger] catalog@[q]).0 == catalog_kind(q) && catalog@[q].1@
                        == catalog_template(q),
            decreases 118 - k,
        {
            catalog.push(catalog_entry(k));
            k += 1;
        }
        Lexer { chars, catalog }
    }

    /// Reads the token at index `i`.
    pub(crate) fn lex(&self, i: usize) -> (r: ExecLex)
        requires
            self.wf(),
            i < self.chars@.len(),
        ensures
            lex_view(r) == lex(self.chars@, i as int),
            r matches ExecLex::Token(_, _, end, _) ==> i < end <= self.chars@.len(),
            r matches ExecLex::Failed(p) ==> p <= self.chars@.len() - i,
    {
        let mut k: usize = 0;
        let mut best: usize = 0;
        proof {
            lemma_lex_from_progress(self.chars@, i as int, 0);
        }
        while k < self.catalog.len()
            invariant
                self.wf(),
                k <= catalog_len(),
                i < self.chars@.len(),
                best <= self.chars@.len() - i,
                lex(self.chars@, i as int) == combine(best as int, lex_from(self.chars@, i as int, k as int)),
            decreases catalog_len() - k,
        {
            let entry = &self.catalog[k];
            proof {
                lemma_templates_start_with_char(k as int);
                lemma_lex_from_progress(self.chars@, i as int, k + 1);
            }
            match match_template(&self.chars, i, &entry.1) {
                ExecMatch::Matched(regs, end, long) => {
                    return ExecLex::Token(entry.0, regs, end, long);
                },
                ExecMatch::Failed(at) => {
                    if at - i > best {
                        best = at - i;
                    }
                },
            }
            k += 1;
        }
        ExecLex::Failed(best)
    }
}

} // verus!
