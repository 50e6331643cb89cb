//! Decoding the New Text Format into a [`Program`].
//!
//! A text starts with the magic `$`, then tokens (see [`crate::grammar`]). Decoding starts on an
//! empty program at the first position; an instruction token places its instruction at the
//! current position and moves one position forward, a directive moves as it says. Placing an
//! instruction in the last slot leaves the position past the end, which is fine as long as no
//! further token comes; any token that needs a position past the end overflows the program.
//!
//! Literals keep their first characters and drop the rest; the strict decoder
//! ([`TextFormatDeserializer`]) rejects such literals, the recovering one
//! ([`TextFormatDeserializerV2`]) keeps what fits.

use vstd::prelude::*;
use crate::diagnostics::{Diagnostics, NoMagicFound, ProgramOverflow, UnknownToken};
use crate::grammar::Command;
use crate::lexer::{build, build_token, lex, lex_view, ExecLex, InstructionOrCommand, Lexer, SpecLex};
use crate::instruction::Instruction;
use crate::program::{
    empty_program, lemma_row_start_step, page_start, program_len, row_start, InstructionPosition,
    InstructionPositionOverflowError, Program,
};
use crate::utils::{advance_position, char_position, chars_of, CharPosition};

verus! {

/// The position `n` rows below the one of `cursor`, at the start of its row.
pub open spec fn skip_rows(cursor: int, n: int) -> int {
    if n == 0 {
        cursor
    } else {
        row_start(cursor) + 16 * n
    }
}

/// Applies `token` at position `cursor` (`3072` stands for past the end) of `prog`: the new
/// position and program, or `None` when it overflows the program.
pub open spec fn apply(token: InstructionOrCommand, cursor: int, prog: Seq<Instruction>) -> Option<
    (int, Seq<Instruction>),
> {
    let target = match token {
        InstructionOrCommand::Command(Command::OneStepForward) => cursor + 1,
        InstructionOrCommand::Command(Command::ThreeStepsForward) => cursor + 3,
        InstructionOrCommand::Command(Command::GoToNextRow) => row_start(cursor) + 16,
        InstructionOrCommand::Command(Command::SkipRows(n)) => skip_rows(cursor, n as int),
        InstructionOrCommand::Command(Command::GoToNextPage) => page_start(cursor) + 192,
        InstructionOrCommand::Instruction(_) => cursor,
    };
    if target >= program_len() {
        None
    } else {
        match token {
            InstructionOrCommand::Instruction(ins) => Some((cursor + 1, prog.update(cursor, ins))),
            _ => Some((target, prog)),
        }
    }
}

/// The diagnostic for the run of unknown characters from index `a` to index `b` of `s`.
pub open spec fn unknown_token(s: Seq<char>, a: int, b: int) -> Diagnostics {
    Diagnostics::UnknownToken(UnknownToken { start: char_position(s, a), end: char_position(s, b) })
}

/// `diags`, with the run of unknown characters `run`, if any, reported.
pub open spec fn flush(s: Seq<char>, run: Option<(int, int)>, diags: Seq<Diagnostics>) -> Seq<
    Diagnostics,
> {
    match run {
        Some((a, b)) => diags.push(unknown_token(s, a, b)),
        None => diags,
    }
}

/// The run of unknown characters `run` grown by the characters from `a` to `b`.
pub open spec fn extend(run: Option<(int, int)>, a: int, b: int) -> Option<(int, int)> {
    match run {
        Some((start, _)) => Some((start, b)),
        None => Some((a, b)),
    }
}

/// Recovering decode of `s` from index `i` on, at position `cursor` of `prog`, with the run of
/// unknown characters `run` still open and the diagnostics `diags` so far.
pub open spec fn decode_from(
    s: Seq<char>,
    i: int,
    cursor: int,
    prog: Seq<Instruction>,
    run: Option<(int, int)>,
    diags: Seq<Diagnostics>,
) -> (Seq<Instruction>, Seq<Diagnostics>)
    decreases s.len() - i,
{
    if i < 0 || i >= s.len() {
        (prog, flush(s, run, diags))
    } else {
        match lex(s, i) {
            SpecLex::Token(kind, regs, end, _) => {
                let diags1 = flush(s, run, diags);
                match apply(build_token(kind, regs), cursor, prog) {
                    Some((cursor2, prog2)) => if i < end <= s.len() {
                        decode_from(s, end, cursor2, prog2, None, diags1)
                    } else {
                        (prog2, diags1)
                    },
                    None => (
                        prog,
                        diags1.push(Diagnostics::ProgramOverflow(ProgramOverflow { position: char_position(s, i) })),
                    ),
                }
            },
            SpecLex::Failed(progress) => {
                let j = if progress > 1 && i + progress <= s.len() { i + progress } else { i + 1 };
                decode_from(s, j, cursor, prog, extend(run, i, j - 1), diags)
            },
        }
    }
}

/// The recovering decode of `s`: the program, and the diagnostics in the order they arise.
///
/// Without the magic, one [`NoMagicFound`] comes first and decoding starts at the first
/// character. Each maximal run of characters that form no token gives one [`UnknownToken`], from
/// its first to its last character. A token that overflows the program gives a
/// [`ProgramOverflow`] and ends decoding.
pub open spec fn decode(s: Seq<char>) -> (Seq<Instruction>, Seq<Diagnostics>) {
    if s.len() > 0 && s[0] == '$' {
        decode_from(s, 1, 0, empty_program(), None, Seq::empty())
    } else {
        decode_from(s, 0, 0, empty_program(), None, seq![Diagnostics::NoMagicFound(NoMagicFound)])
    }
}


/// Only [`UnknownToken`] and [`ProgramOverflow`] diagnostics are added along the way.
proof fn lemma_decode_from_diagnostics(
    s: Seq<char>,
    i: int,
    cursor: int,
    prog: Seq<Instruction>,
    run: Option<(int, int)>,
    diags: Seq<Diagnostics>,
)
    ensures
        ({
            let r = decode_from(s, i, cursor, prog, run, diags).1;
            &&& diags.len() <= r.len()
            &&& r.subrange(0, diags.len() as int) == diags
            &&& forall|k: int| diags.len() <= k < r.len() ==> !(#[trigger] r[k] is NoMagicFound)
        }),
    decreases s.len() - i,
{
    let r = decode_from(s, i, cursor, prog, run, diags).1;
    if i < 0 || i >= s.len() {
        assert(r.subrange(0, diags.len() as int) =~= diags);
    } else {
        match lex(s, i) {
            SpecLex::Token(kind, regs, end, _) => {
                let diags1 = flush(s, run, diags);
                assert(diags1.subrange(0, diags.len() as int) =~= diags);
                match apply(build_token(kind, regs), cursor, prog) {
                    Some((cursor2, prog2)) => {
                        if i < end <= s.len() {
                            lemma_decode_from_diagnostics(s, end, cursor2, prog2, None, diags1);
                            assert(r.subrange(0, diags.len() as int) =~= diags1.subrange(0, diags1.len() as int).subrange(0, diags.len() as int));
                            assert forall|k: int| diags.len() <= k < r.len() implies !(#[trigger] r[k] is NoMagicFound) by {
                                if k < diags1.len() {
                                    assert(r[k] == r.subrange(0, diags1.len() as int)[k]);
                                }
                            }
                        }
                    },
                    None => {
                        assert(r.subrange(0, diags.len() as int) =~= diags);
                    },
                }
            },
            SpecLex::Failed(progress) => {
                let j = if progress > 1 && i + progress <= s.len() { i + progress } else { i + 1 };
                lemma_decode_from_diagnostics(s, j, cursor, prog, extend(run, i, j - 1), diags);
            },
        }
    }
}

/// The program decoded from `i` on does not depend on what stands before `i`, nor on the
/// diagnostics so far.
proof fn lemma_decode_from_shift(
    s: Seq<char>,
    c: char,
    i: int,
    cursor: int,
    prog: Seq<Instruction>,
    run1: Option<(int, int)>,
    diags1: Seq<Diagnostics>,
    run2: Option<(int, int)>,
    diags2: Seq<Diagnostics>,
)
    requires
        0 <= i,
    ensures
        decode_from(s, i, cursor, prog, run1, diags1).0 == decode_from(
            seq![c] + s,
            i + 1,
            cursor,
            prog,
            run2,
            diags2,
        ).0,
        (run1 is Some <==> run2 is Some) ==> decode_from(s, i, cursor, prog, run1, diags1).1.len()
            - diags1.len() == decode_from(seq![c] + s, i + 1, cursor, prog, run2, diags2).1.len()
            - diags2.len(),
    decreases s.len() - i,
{
    let s2 = seq![c] + s;
    if i < s.len() {
        crate::lexer::lemma_lex_shift(s, c, i, 0);
        match lex(s, i) {
            SpecLex::Token(kind, regs, end, _) => {
                match apply(build_token(kind, regs), cursor, prog) {
                    Some((cursor2, prog2)) => {
                        if i < end <= s.len() {
                            lemma_decode_from_shift(
                                s,
                                c,
                                end,
                                cursor2,
                                prog2,
                                None,
                                flush(s, run1, diags1),
                                None,
                                flush(s2, run2, diags2),
                            );
                        }
                    },
                    None => {},
                }
            },
            SpecLex::Failed(progress) => {
                let j = if progress > 1 && i + progress <= s.len() { i + progress } else { i + 1 };
                lemma_decode_from_shift(
                    s,
                    c,
                    j,
                    cursor,
                    prog,
                    extend(run1, i, j - 1),
                    diags1,
                    extend(run2, i + 1, j),
                    diags2,
                );
            },
        }
    }
}

/// A text without the magic is decoded as if the magic stood in front of it, and its
/// diagnostics are one more: they start with the one [`NoMagicFound`] that the decode reports. A text with the
/// magic gets no [`NoMagicFound`].
pub proof fn lemma_no_magic(s: Seq<char>)
    ensures
        s.len() == 0 || s[0] != '$' ==> {
            &&& decode(s).0 == decode(seq!['$'] + s).0
            &&& decode(s).1.len() == decode(seq!['$'] + s).1.len() + 1
            &&& decode(s).1.len() >= 1
            &&& decode(s).1[0] == Diagnostics::NoMagicFound(NoMagicFound)
            &&& forall|k: int| 1 <= k < decode(s).1.len() ==> !(#[trigger] decode(s).1[k] is NoMagicFound)
        },
        s.len() > 0 && s[0] == '$' ==> forall|k: int|
            0 <= k < decode(s).1.len() ==> !(#[trigger] decode(s).1[k] is NoMagicFound),
{
    if s.len() > 0 && s[0] == '$' {
        lemma_decode_from_diagnostics(s, 1, 0, empty_program(), None, Seq::empty());
    } else {
        let first = seq![Diagnostics::NoMagicFound(NoMagicFound)];
        lemma_decode_from_diagnostics(s, 0, 0, empty_program(), None, first);
        let r = decode(s).1;
        assert(r[0] == r.subrange(0, 1)[0]);
        let s2 = seq!['$'] + s;
        assert(s2[0] == '$');
        lemma_decode_from_shift(s, '$', 0, 0, empty_program(), None, first, None, Seq::empty());
    }
}

/// The decoding position: a slot, or past the end of the program.
pub(crate) open spec fn cursor_of(pos: InstructionPosition, at_end: bool) -> int {
    if at_end {
        program_len()
    } else {
        pos.spec_index()
    }
}

/// Applies `token` at the decoding position; returns whether it fit.
fn apply_token(
    token: InstructionOrCommand,
    pos: &mut InstructionPosition,
    at_end: &mut bool,
    program: &mut Program,
) -> (ok: bool)
    ensures
        match apply(token, cursor_of(*old(pos), *old(at_end)), old(program)@) {
            Some((c2, p2)) => ok && cursor_of(*final(pos), *final(at_end)) == c2 && final(program)@ == p2,
            None => !ok && final(program)@ == old(program)@,
        },
{
    proof {
        use_type_invariant(&*pos);
        pos.lemma_index();
    }
    match token {
        InstructionOrCommand::Instruction(ins) => {
            if *at_end {
                return false;
            }
            program.set_at(*pos, ins);
            if pos.move_forward().is_err() {
                *at_end = true;
            }
            true
        },
        InstructionOrCommand::Command(command) => {
            match command {
                Command::SkipRows(n) => {
                    if *at_end {
                        return false;
                    }
                    if n == 0 {
                        return true;
                    }
                    let ghost c = pos.spec_index();
                    let mut k: u8 = 0;
                    while k < n
                        invariant
                            k <= n,
                            token == InstructionOrCommand::Command(Command::SkipRows(n)),
                            *old(at_end) == false,
                            c == old(pos).spec_index(),
                            k == 0 ==> *pos == *old(pos),
                            k > 0 ==> pos.spec_index() == row_start(c) + 16 * k,
                            0 <= c < program_len(),
                            row_start(c) <= c < row_start(c) + 16,
                            !*at_end,
                            *program == *old(program),
                        decreases n - k,
                    {
                        proof {
                            use_type_invariant(&*pos);
                            pos.lemma_index();
                            if k > 0 {
                                lemma_row_start_step(c, k as int);
                            }
                        }
                        if pos.move_to_next_row().is_err() {
                            return false;
                        }
                        k += 1;
                    }
                    proof {
                        use_type_invariant(&*pos);
                        pos.lemma_index();
                    }
                    true
                },
                Command::OneStepForward => !*at_end && pos.move_forward().is_ok(),
                Command::ThreeStepsForward => !*at_end && pos.move_three_steps_forward().is_ok(),
                Command::GoToNextRow => !*at_end && pos.move_to_next_row().is_ok(),
                Command::GoToNextPage => !*at_end && pos.move_to_next_page().is_ok(),
            }
        },
    }
}

/// A structure that decodes the New Text Format into [`Program`]s, reporting problems as
/// diagnostics and going on where it can.
pub struct TextFormatDeserializerV2 {
    pub(crate) lexer: Lexer,
}

impl TextFormatDeserializerV2 {
    #[verifier::type_invariant]
    pub(crate) open(crate) spec fn wf(self) -> bool {
        self.lexer.wf()
    }

    /// The text this deserializer reads.
    pub closed spec fn source(self) -> Seq<char> {
        self.lexer.chars@
    }

    pub fn new(str: &str) -> (r: Self)
        ensures
            r.source() == str@,
    {
        let chars = chars_of(str);
        TextFormatDeserializerV2 { lexer: Lexer::new(chars) }
    }

    /// Decodes the text into `program`, which is reset first, and returns the diagnostics.
    ///
    /// No diagnostics means a faithful decode; [`Diagnostics::ProgramOverflow`], always the
    /// last one, means that decoding stopped at that token.
    pub fn deserialize(&self, program: &mut Program) -> (r: Vec<Diagnostics>)
        ensures
            (final(program)@, r@) == decode(self.source()),
    {
        proof {
            use_type_invariant(self);
        }
        let s = &self.lexer.chars;
        program.reset();
        let mut diags: Vec<Diagnostics> = Vec::new();
        let mut i: usize = 0;
        if s.len() > 0 && s[0] == '$' {
            i = 1;
        } else {
            diags.push(Diagnostics::NoMagicFound(NoMagicFound));
        }
        let mut pos = InstructionPosition::default();
        let mut at_end = false;
        let mut run: Option<(CharPosition, usize)> = None;
        let mut last_pos = CharPosition { index: 0, line: 0, column: 0 };
        let ghost run_spec: Option<(int, int)> = None;
        proof {
            assert(diags@ =~= if s@.len() > 0 && s@[0] == '$' {
                Seq::<Diagnostics>::empty()
            } else {
                seq![Diagnostics::NoMagicFound(NoMagicFound)]
            });
        }
        while i < s.len()
            invariant
                self.lexer.wf(),
                s == &self.lexer.chars,
                i <= s@.len(),
                decode(s@) == decode_from(s@, i as int, cursor_of(pos, at_end), program@, run_spec, diags@),
                last_pos == char_position(s@, last_pos.index as int),
                run is None ==> run_spec is None && last_pos.index <= i,
                run matches Some((sp, b)) ==> run_spec == Some((sp.index as int, b as int)) && sp
                    == char_position(s@, sp.index as int) && last_pos.index <= b < i,
            decreases s@.len() - i,
        {
            match self.lexer.lex(i) {
                ExecLex::Token(kind, regs, end, _) => {
                    if let Some((sp, b)) = run {
                        last_pos = advance_position(s, last_pos, b);
                        diags.push(Diagnostics::UnknownToken(UnknownToken { start: sp, end: last_pos }));
                    }
                    run = None;
                    proof {
                        run_spec = None;
                    }
                    let token = build(kind, regs);
                    if !apply_token(token, &mut pos, &mut at_end, program) {
                        last_pos = advance_position(s, last_pos, i);
                        diags.push(Diagnostics::ProgramOverflow(ProgramOverflow { position: last_pos }));
                        return diags;
                    }
                    i = end;
                },
                ExecLex::Failed(progress) => {
                    let j = if progress > 1 { i + progress } else { i + 1 };
                    match run {
                        Some((sp, _)) => {
                            run = Some((sp, j - 1));
                        },
                        None => {
                            last_pos = advance_position(s, last_pos, i);
                            run = Some((last_pos, j - 1));
                        },
                    }
                    proof {
                        run_spec = extend(run_spec, i as int, j - 1);
                    }
                    i = j;
                },
            }
        }
        if let Some((sp, b)) = run {
            last_pos = advance_position(s, last_pos, b);
            diags.push(Diagnostics::UnknownToken(UnknownToken { start: sp, end: last_pos }));
        }
        diags
    }
}


#[derive(Copy, Clone, Debug, PartialEq, Eq)]
pub struct MagicNotFoundError {}

#[derive(Copy, Clone, Debug, PartialEq, Eq)]
pub struct IllegalMagicError {
    pub illegal_magic: char,
}

impl IllegalMagicError {
    pub open spec fn spec_illegal_magic(self) -> char {
        self.illegal_magic
    }

    /// Returns the character found where the magic should be.
    pub fn illegal_magic(&self) -> (r: char)
        ensures
            r == self.spec_illegal_magic(),
    {
        self.illegal_magic
    }
}

#[derive(Copy, Clone, Debug, PartialEq, Eq)]
pub struct UnknownInstruction {
    pub index: usize,
}

#[derive(Copy, Clone, Debug, PartialEq, Eq)]
pub struct LiteralIsTooLong {
    pub literal_index: usize,
}

/// Errors of the strict decoder.
#[derive(Copy, Clone, Debug, PartialEq, Eq)]
pub enum DeserializeErrors {
    MagicNotFoundError(MagicNotFoundError),
    IllegalMagicError(IllegalMagicError),
    UnknownInstruction(UnknownInstruction),
    LiteralIsTooLong(LiteralIsTooLong),
    InstructionPositionOverflowError(InstructionPositionOverflowError),
}

/// Strict decode of `s` from index `i` on, at position `cursor` of `prog`: the program reached,
/// and the error that stopped decoding, if any.
pub open spec fn strict_from(s: Seq<char>, i: int, cursor: int, prog: Seq<Instruction>) -> (
    Seq<Instruction>,
    Option<DeserializeErrors>,
)
    decreases s.len() - i,
{
    if i < 0 || i >= s.len() {
        (prog, None)
    } else {
        match lex(s, i) {
            SpecLex::Token(kind, regs, end, long) => match long {
                Some(li) => (
                    prog,
                    Some(DeserializeErrors::LiteralIsTooLong(LiteralIsTooLong { literal_index: li as usize })),
                ),
                None => match apply(build_token(kind, regs), cursor, prog) {
                    Some((cursor2, prog2)) => if i < end <= s.len() {
                        strict_from(s, end, cursor2, prog2)
                    } else {
                        (prog2, None)
                    },
                    None => (
                        prog,
                        Some(
                            DeserializeErrors::InstructionPositionOverflowError(
                                InstructionPositionOverflowError {},
                            ),
                        ),
                    ),
                },
            },
            SpecLex::Failed(_) => (
                prog,
                Some(DeserializeErrors::UnknownInstruction(UnknownInstruction { index: i as usize })),
            ),
        }
    }
}

/// The strict decode of `s` into a program that held `old` before: the program afterwards, and
/// the error, if any. The magic is checked first (the program is untouched when it is wrong);
/// then the program is reset and decoding stops at the first unknown token (reported at its
/// first character), literal longer than it keeps, or overflow of the program.
pub open spec fn strict_decode(s: Seq<char>, old: Seq<Instruction>) -> (
    Seq<Instruction>,
    Option<DeserializeErrors>,
) {
    if s.len() == 0 {
        (old, Some(DeserializeErrors::MagicNotFoundError(MagicNotFoundError {})))
    } else if s[0] != '$' {
        (old, Some(DeserializeErrors::IllegalMagicError(IllegalMagicError { illegal_magic: s[0] })))
    } else {
        strict_from(s, 1, 0, empty_program())
    }
}

/// A structure that decodes the New Text Format into [`Program`]s and stops at the first
/// problem.
pub struct TextFormatDeserializer {
    pub(crate) lexer: Lexer,
}

impl TextFormatDeserializer {
    #[verifier::type_invariant]
    pub(crate) open(crate) spec fn wf(self) -> bool {
        self.lexer.wf()
    }

    /// The text this deserializer reads.
    pub closed spec fn source(self) -> Seq<char> {
        self.lexer.chars@
    }

    /// Creates a new [`TextFormatDeserializer`] for the text `s`.
    pub fn new_from_str(s: &str) -> (r: Self)
        ensures
            r.source() == s@,
    {
        TextFormatDeserializer { lexer: Lexer::new(chars_of(s)) }
    }

    /// Decodes the text into `program`.
    ///
    /// # Errors
    ///
    /// See [`strict_decode`]: a missing or wrong magic, an unknown token, a literal that is too
    /// long, or a token past the end of the program.
    pub fn deserialize(&self, program: &mut Program) -> (r: Result<(), DeserializeErrors>)
        ensures
            final(program)@ == strict_decode(self.source(), old(program)@).0,
            r is Ok <==> strict_decode(self.source(), old(program)@).1 is None,
            r is Err ==> strict_decode(self.source(), old(program)@).1 == Some(r->Err_0),
    {
        proof {
            use_type_invariant(self);
        }
        let s = &self.lexer.chars;
        if s.len() == 0 {
            return Err(DeserializeErrors::MagicNotFoundError(MagicNotFoundError {}));
        }
        if s[0] != '$' {
            return Err(DeserializeErrors::IllegalMagicError(IllegalMagicError { illegal_magic: s[0] }));
        }
        program.reset();
        let mut i: usize = 1;
        let mut pos = InstructionPosition::default();
        let mut at_end = false;
        while i < s.len()
            invariant
                self.lexer.wf(),
                s == &self.lexer.chars,
                1 <= i <= s@.len(),
                s@[0] == '$',
                strict_decode(s@, old(program)@) == strict_from(s@, i as int, cursor_of(pos, at_end), program@),
            decreases s@.len() - i,
        {
            match self.lexer.lex(i) {
                ExecLex::Token(kind, regs, end, long) => {
                    if let Some(li) = long {
                        return Err(DeserializeErrors::LiteralIsTooLong(LiteralIsTooLong { literal_index: li }));
                    }
                    let token = build(kind, regs);
                    if !apply_token(token, &mut pos, &mut at_end, program) {
                        return Err(
                            DeserializeErrors::InstructionPositionOverflowError(
                                InstructionPositionOverflowError {},
                            ),
                        );
                    }
                    i = end;
                },
                ExecLex::Failed(_) => {
                    return Err(DeserializeErrors::UnknownInstruction(UnknownInstruction { index: i }));
                },
            }
        }
        Ok(())
    }
}

} // verus!
