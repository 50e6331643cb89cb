//! Decoding the directives that the encoder writes between two instructions.

use vstd::prelude::*;
use crate::decoder::{apply, decode_from, skip_rows};
use crate::diagnostics::Diagnostics;
use crate::encoder::{column_of, columns_text, delta_text, page_of, pages_text, row_of, rows_middle, rows_text};
use crate::grammar::{Command, TokenKind};
use crate::instruction::Instruction;
use crate::lexer::{empty_registers, lex, lex_from, match_pieces, InstructionOrCommand, SpecLex};
use crate::literals::digit_char;
use crate::program::{page_start, program_len, row_start};

verus! {

/// The directive token that `s` holds at `i`, with where it ends, if it is one of those the
/// encoder writes.
spec fn directive_at(s: Seq<char>, i: int) -> Option<(Command, int)> {
    if s[i] == ' ' {
        Some((Command::OneStepForward, i + 1))
    } else if s[i] == '_' {
        Some((Command::ThreeStepsForward, i + 1))
    } else if s[i] == '\n' {
        Some((Command::GoToNextRow, i + 1))
    } else if s[i] == '~' && i + 1 < s.len() && s[i + 1] == '\n' {
        Some((Command::GoToNextPage, i + 2))
    } else if s[i] == '.' && i + 2 < s.len() && s[i + 2] == '.' && s[i + 1] == '0' {
        Some((Command::SkipRows(9), i + 3))
    } else if s[i] == '.' && i + 2 < s.len() && s[i + 2] == '.' && s[i + 1] == '5' {
        Some((Command::SkipRows(4), i + 3))
    } else if s[i] == '.' && i + 2 < s.len() && s[i + 2] == '.' && s[i + 1] == '6' {
        Some((Command::SkipRows(5), i + 3))
    } else if s[i] == '.' && i + 2 < s.len() && s[i + 2] == '.' && s[i + 1] == '7' {
        Some((Command::SkipRows(6), i + 3))
    } else if s[i] == '.' && i + 2 < s.len() && s[i + 2] == '.' && s[i + 1] == '8' {
        Some((Command::SkipRows(7), i + 3))
    } else if s[i] == '.' && i + 2 < s.len() && s[i + 2] == '.' && s[i + 1] == '9' {
        Some((Command::SkipRows(8), i + 3))
    } else if s[i] == '.' && i + 1 < s.len() && (s[i + 1] == '.' || s[i + 1] == '\n') {
        Some((Command::GoToNextRow, i + 1))
    } else {
        None
    }
}

#[verifier::rlimit(60)]
proof fn lemma_lex_directive(s: Seq<char>, i: int)
    requires
        0 <= i < s.len(),
        directive_at(s, i) is Some,
    ensures
        lex(s, i) == SpecLex::Token(
            TokenKind::Command(directive_at(s, i)->Some_0.0),
            empty_registers(),
            directive_at(s, i)->Some_0.1,
            None,
        ),
{
    reveal_with_fuel(lex_from, 13);
    reveal_with_fuel(match_pieces, 4);
}

/// One directive token at `i`, which fits the program, moves the decoding position as it says.
proof fn lemma_step(s: Seq<char>, i: int, c: int, prog: Seq<Instruction>, diags: Seq<Diagnostics>)
    requires
        0 <= i < s.len(),
        directive_at(s, i) is Some,
        apply(InstructionOrCommand::Command(directive_at(s, i)->Some_0.0), c, prog) is Some,
    ensures
        decode_from(s, i, c, prog, None, diags) == decode_from(
            s,
            directive_at(s, i)->Some_0.1,
            apply(InstructionOrCommand::Command(directive_at(s, i)->Some_0.0), c, prog)->Some_0.0,
            prog,
            None,
            diags,
        ),
{
    lemma_lex_directive(s, i);
}

proof fn lemma_decode_columns(
    s: Seq<char>,
    i: int,
    c: int,
    n: int,
    prog: Seq<Instruction>,
    diags: Seq<Diagnostics>,
)
    requires
        0 <= i,
        0 <= n,
        0 <= c,
        c + n < program_len(),
        i + columns_text(n).len() <= s.len(),
        s.subrange(i, i + columns_text(n).len()) == columns_text(n),
    ensures
        decode_from(s, i, c, prog, None, diags) == decode_from(
            s,
            i + columns_text(n).len(),
            c + n,
            prog,
            None,
            diags,
        ),
    decreases n,
{
    if n > 0 {
        let t = columns_text(n);
        assert(s[i] == t[0]) by {
            assert(s.subrange(i, i + t.len())[0] == s[i]);
        }
        if n >= 3 {
            assert(t =~= seq!['_'] + columns_text(n - 3));
        } else {
            assert(t =~= seq![' '] + columns_text(n - 1));
        }
        let step = if n >= 3 { 3int } else { 1int };
        let rest = columns_text(n - step);
        assert(s.subrange(i + 1, i + 1 + rest.len()) =~= rest) by {
            assert forall|k: int| 0 <= k < rest.len() implies s[i + 1 + k] == rest[k] by {
                assert(s.subrange(i, i + t.len())[k + 1] == s[i + 1 + k]);
            }
        }
        lemma_step(s, i, c, prog, diags);
        lemma_decode_columns(s, i + 1, c + step, n - step, prog, diags);
    } else {
        assert(columns_text(n).len() == 0);
    }
}


proof fn lemma_subrange_split(s: Seq<char>, i: int, a: Seq<char>, b: Seq<char>)
    requires
        0 <= i,
        i + a.len() + b.len() <= s.len(),
        s.subrange(i, i + (a + b).len()) == a + b,
    ensures
        s.subrange(i, i + a.len()) == a,
        s.subrange(i + a.len(), i + a.len() + b.len()) == b,
{
    assert forall|k: int| 0 <= k < a.len() implies s[i + k] == a[k] by {
        assert(s.subrange(i, i + (a + b).len())[k] == s[i + k]);
    }
    assert forall|k: int| 0 <= k < b.len() implies s[i + a.len() + k] == b[k] by {
        assert(s.subrange(i, i + (a + b).len())[a.len() + k] == s[i + a.len() + k]);
    }
    assert(s.subrange(i, i + a.len()) =~= a);
    assert(s.subrange(i + a.len(), i + a.len() + b.len()) =~= b);
}

proof fn lemma_split_index(x: int)
    requires
        0 <= x < program_len(),
    ensures
        0 <= page_of(x) < 16,
        0 <= row_of(x) < 12,
        0 <= column_of(x) < 16,
        page_start(x) == 192 * page_of(x),
        row_start(x) == page_start(x) + 16 * row_of(x),
        x == row_start(x) + column_of(x),
{
}

proof fn lemma_page_start_step(c: int, k: int)
    requires
        0 <= c,
        0 <= k,
    ensures
        page_start(page_start(c) + 192 * k) == page_start(c) + 192 * k,
        row_start(page_start(c) + 192 * k) == page_start(c) + 192 * k,
{
    let q = c / 192;
    assert((q * 192 + 192 * k) / 192 == q + k) by (nonlinear_arith);
    assert((q * 192 + 192 * k) / 16 == 12 * (q + k)) by (nonlinear_arith);
}

/// `m` dots, then a line break, from the row start `x`: `m` rows down.
proof fn lemma_decode_dots(s: Seq<char>, i: int, x: int, m: int, prog: Seq<Instruction>, diags: Seq<Diagnostics>)
    requires
        0 <= i,
        0 <= m,
        0 <= x,
        row_start(x) == x,
        x + 16 * m < program_len(),
        i + m < s.len(),
        forall|k: int| i <= k < i + m ==> s[k] == '.',
        s[i + m] == '\n',
    ensures
        decode_from(s, i, x, prog, None, diags) == decode_from(s, i + m, x + 16 * m, prog, None, diags),
    decreases m,
{
    if m > 0 {
        assert(s[i] == '.');
        assert(s[i + 1] == '.' || s[i + 1] == '\n');
        lemma_step(s, i, x, prog, diags);
        crate::program::lemma_row_start_step(x, 1);
        if m > 1 {
            assert(s[i + 1] == '.');
        }
        lemma_decode_dots(s, i + 1, x + 16, m - 1, prog, diags);
    }
}

/// The text of `n` empty rows but its first line break, from the row start `x`: `n` rows down.
proof fn lemma_decode_rows_tail(
    s: Seq<char>,
    i: int,
    x: int,
    n: int,
    prog: Seq<Instruction>,
    diags: Seq<Diagnostics>,
)
    requires
        0 <= i,
        0 <= n <= 11,
        0 <= x,
        row_start(x) == x,
        x + 16 * n < program_len(),
        i + rows_text(n).len() - 1 <= s.len(),
        s.subrange(i, i + rows_text(n).len() - 1) == rows_text(n).drop_first(),
    ensures
        decode_from(s, i, x, prog, None, diags) == decode_from(
            s,
            i + rows_text(n).len() - 1,
            x + 16 * n,
            prog,
            None,
            diags,
        ),
    decreases n,
{
    let t = rows_text(n).drop_first();
    assert forall|k: int| 0 <= k < t.len() implies s[i + k] == t[k] by {
        assert(s.subrange(i, i + t.len())[k] == s[i + k]);
    }
    crate::program::lemma_row_start_step(x, 1);
    if n == 11 {
        assert(t =~= rows_text(10));
        assert(rows_text(10) =~= seq!['\n'] + rows_text(10).drop_first());
        assert(s[i] == t[0]);
        lemma_step(s, i, x, prog, diags);
        let u = rows_text(10).drop_first();
        assert(s.subrange(i + 1, i + 1 + u.len()) =~= u) by {
            assert forall|k: int| 0 <= k < u.len() implies s.subrange(i + 1, i + 1 + u.len())[k] == u[k] by {
                assert(s[i + 1 + k] == t[k + 1]);
            }
        }
        lemma_decode_rows_tail(s, i + 1, x + 16, 10, prog, diags);
    } else if n == 0 {
        assert(t.len() == 0);
    } else if n == 1 {
        assert(t =~= seq!['\n']);
        assert(s[i] == t[0]);
        lemma_step(s, i, x, prog, diags);
    } else if n <= 4 {
        assert(t =~= Seq::new((n - 1) as nat, |_k: int| '.') + seq!['\n']);
        assert forall|k: int| i <= k < i + n - 1 implies s[k] == '.' by {
            assert(s[i + (k - i)] == t[k - i]);
        }
        assert(s[i + n - 1] == t[n - 1]);
        lemma_decode_dots(s, i, x, n - 1, prog, diags);
        crate::program::lemma_row_start_step(x, n - 1);
        lemma_step(s, i + n - 1, x + 16 * (n - 1), prog, diags);
    } else {
        assert(t =~= seq!['.', digit_char(n % 10), '.', '\n']);
        assert(s[i] == t[0] && s[i + 1] == t[1] && s[i + 2] == t[2] && s[i + 3] == t[3]);
        lemma_step(s, i, x, prog, diags);
        assert(skip_rows(x, n - 1) == x + 16 * (n - 1));
        crate::program::lemma_row_start_step(x, n - 1);
        lemma_step(s, i + 3, x + 16 * (n - 1), prog, diags);
    }
}

/// The text of `n` empty rows, from `c`: the start of the row `n + 1` rows down.
proof fn lemma_decode_rows(
    s: Seq<char>,
    i: int,
    c: int,
    n: int,
    prog: Seq<Instruction>,
    diags: Seq<Diagnostics>,
)
    requires
        0 <= i,
        0 <= n <= 11,
        0 <= c,
        row_start(c) + 16 * (n + 1) < program_len(),
        i + rows_text(n).len() <= s.len(),
        s.subrange(i, i + rows_text(n).len()) == rows_text(n),
    ensures
        decode_from(s, i, c, prog, None, diags) == decode_from(
            s,
            i + rows_text(n).len(),
            row_start(c) + 16 * (n + 1),
            prog,
            None,
            diags,
        ),
{
    let t = rows_text(n);
    assert(t =~= seq!['\n'] + t.drop_first());
    lemma_subrange_split(s, i, seq!['\n'], t.drop_first());
    assert(s[i] == '\n') by {
        assert(s.subrange(i, i + 1)[0] == s[i]);
    }
    lemma_step(s, i, c, prog, diags);
    crate::program::lemma_row_start_step(c, 1);
    lemma_decode_rows_tail(s, i + 1, row_start(c) + 16, n, prog, diags);
}

/// `p` pages forward, with the line break after the last `~`, from `c`: the start of the page
/// `p` pages on.
proof fn lemma_decode_pages(
    s: Seq<char>,
    i: int,
    c: int,
    p: int,
    prog: Seq<Instruction>,
    diags: Seq<Diagnostics>,
)
    requires
        0 <= i,
        1 <= p,
        0 <= c,
        page_start(c) + 192 * p < program_len(),
        i + pages_text(p).len() + 1 <= s.len(),
        s.subrange(i, i + pages_text(p).len() + 1) == pages_text(p) + seq!['\n'],
    ensures
        decode_from(s, i, c, prog, None, diags) == decode_from(
            s,
            i + pages_text(p).len() + 1,
            page_start(c) + 192 * p,
            prog,
            None,
            diags,
        ),
    decreases p,
{
    let t = pages_text(p) + seq!['\n'];
    assert forall|k: int| 0 <= k < t.len() implies s[i + k] == t[k] by {
        assert(s.subrange(i, i + t.len())[k] == s[i + k]);
    }
    lemma_page_start_step(c, 1);
    if p == 1 {
        assert(t =~= seq!['~', '\n']);
        assert(s[i] == t[0] && s[i + 1] == t[1]);
        lemma_step(s, i, c, prog, diags);
    } else {
        assert(t =~= seq!['~', '\n'] + (pages_text(p - 1) + seq!['\n']));
        assert(s[i] == t[0] && s[i + 1] == t[1]);
        lemma_step(s, i, c, prog, diags);
        let u = pages_text(p - 1) + seq!['\n'];
        assert(s.subrange(i + 2, i + 2 + u.len()) =~= u) by {
            assert forall|k: int| 0 <= k < u.len() implies s.subrange(i + 2, i + 2 + u.len())[k] == u[k] by {
                assert(s[i + 2 + k] == t[k + 2]);
            }
        }
        lemma_page_start_step(c, p);
        assert(page_start(page_start(c) + 192) == page_start(c) + 192);
        lemma_decode_pages(s, i + 2, page_start(c) + 192, p - 1, prog, diags);
    }
}

/// Decoding the directives written between flat indices `c` and `t` moves the decoding position
/// from `c` exactly to `t`, whatever text follows them.
pub proof fn lemma_delta_decodes(
    s: Seq<char>,
    i: int,
    c: int,
    t: int,
    prog: Seq<Instruction>,
    diags: Seq<Diagnostics>,
)
    requires
        0 <= c <= t < program_len(),
        0 <= i,
        i + delta_text(c, t).len() <= s.len(),
        s.subrange(i, i + delta_text(c, t).len()) == delta_text(c, t),
    ensures
        decode_from(s, i, c, prog, None, diags) == decode_from(
            s,
            i + delta_text(c, t).len(),
            t,
            prog,
            None,
            diags,
        ),
{
    lemma_split_index(c);
    lemma_split_index(t);
    if c == t {
    } else if row_start(c) == row_start(t) {
        lemma_decode_columns(s, i, c, t - c, prog, diags);
    } else if page_start(c) == page_start(t) {
        let r = rows_text(row_of(t) - row_of(c) - 1);
        let k = columns_text(column_of(t));
        lemma_subrange_split(s, i, r, k);
        lemma_decode_rows(s, i, c, row_of(t) - row_of(c) - 1, prog, diags);
        lemma_decode_columns(s, i + r.len(), row_start(t), column_of(t), prog, diags);
    } else {
        let pg = pages_text(page_of(t) - page_of(c));
        let r = rows_text(row_of(t));
        let k = columns_text(column_of(t));
        assert(delta_text(c, t) == pg + r + k);
        lemma_subrange_split(s, i, pg + r, k);
        lemma_subrange_split(s, i, pg, r);
        assert(r =~= seq!['\n'] + r.drop_first());
        assert(pg + r =~= (pg + seq!['\n']) + r.drop_first());
        lemma_subrange_split(s, i, pg + seq!['\n'], r.drop_first());
        lemma_decode_pages(s, i, c, page_of(t) - page_of(c), prog, diags);
        lemma_page_start_step(c, 0);
        lemma_page_start_step(t, 0);
        lemma_decode_rows_tail(s, i + pg.len() + 1, page_start(t), row_of(t), prog, diags);
        lemma_decode_columns(s, i + pg.len() + r.len(), row_start(t), column_of(t), prog, diags);
    }
}

} // verus!
