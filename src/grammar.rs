//! The tokens of the New Text Format.
//!
//! A token is a template: characters, with literals in between. Position directives:
//! `' '` moves one column forward, `'_'` three columns, `'\n'` and `'.'` move to the next row,
//! `.d.` (`d` in `5..=9`) moves `d - 1` rows and `.0.` nine rows, so that such a run followed by a
//! line break skips `d` (or ten) rows; `'~'` moves to the next page, and a line break right after
//! it belongs to it. Every instruction id but `Empty` has its own template.

use vstd::prelude::*;
use crate::instruction::InstructionId;
use crate::grammar::TemplatePiece::{Char, Literal};

verus! {

/// A directive that moves the decoding position instead of placing an instruction.
#[derive(Copy, Clone, Debug, PartialEq, Eq, Structural)]
pub enum Command {
    OneStepForward,
    ThreeStepsForward,
    GoToNextRow,
    /// Moves to the next row as many times as given.
    SkipRows(u8),
    GoToNextPage,
}

/// The kinds of literals a template can hold.
#[derive(Copy, Clone, Debug, PartialEq, Eq, Structural)]
pub enum LiteralType {
    LabelIdentifierLiteral,
    StringLiteral,
    VariableIdentifierLiteral,
    VariableValueLiteral,
}

/// One element of a token template.
#[derive(Copy, Clone, Debug, PartialEq, Eq, Structural)]
pub enum TemplatePiece {
    /// This very character.
    Char(char),
    /// A literal of this type, read greedily.
    Literal(LiteralType),
}

/// What a token stands for.
#[derive(Copy, Clone, Debug, PartialEq, Eq, Structural)]
pub enum TokenKind {
    Command(Command),
    Instruction(InstructionId),
}

/// The template of the instruction token for `id`.
pub open spec fn instruction_template(id: InstructionId) -> Seq<TemplatePiece> {
    match id {
            InstructionId::Empty => seq![Char(' ')],
            InstructionId::Back => seq![Char(',')],
            InstructionId::Start => seq![Char('#'), Char('S')],
            InstructionId::End => seq![Char('#'), Char('E')],
            InstructionId::MoveW => seq![Char('^'), Char('W')],
            InstructionId::MoveA => seq![Char('^'), Char('A')],
            InstructionId::MoveS => seq![Char('^'), Char('S')],
            InstructionId::MoveD => seq![Char('^'), Char('D')],
            InstructionId::Digg => seq![Char('z')],
            InstructionId::LookW => seq![Char('w')],
            InstructionId::LookA => seq![Char('a')],
            InstructionId::LookS => seq![Char('s')],
            InstructionId::LookD => seq![Char('d')],
            InstructionId::MoveF => seq![Char('^'), Char('F')],
            InstructionId::RotateCcw => seq![Char('C'), Char('C'), Char('W'), Char(';')],
            InstructionId::RotateCw => seq![Char('C'), Char('W'), Char(';')],
            InstructionId::ActionBuild => seq![Char('b')],
            InstructionId::ActionGeo => seq![Char('g')],
            InstructionId::ActionRoad => seq![Char('r')],
            InstructionId::ActionHeal => seq![Char('h')],
            InstructionId::ActionQuadro => seq![Char('q')],
            InstructionId::ActionRandom => seq![Char('R'), Char('A'), Char('N'), Char('D'), Char(';')],
            InstructionId::ActionBibika => seq![Char('B'), Char('E'), Char('E'), Char('P'), Char(';')],
            InstructionId::GoTo => seq![Char('>'), Literal(LiteralType::LabelIdentifierLiteral), Char('|')],
            InstructionId::GoSub => seq![Char(':'), Char('>'), Literal(LiteralType::LabelIdentifierLiteral), Char('>')],
            InstructionId::GoSub1 => seq![Char('-'), Char('>'), Literal(LiteralType::LabelIdentifierLiteral), Char('>')],
            InstructionId::Return => seq![Char('<'), Char('|')],
            InstructionId::Return1 => seq![Char('<'), Char('-'), Char('|')],
            InstructionId::CellWa => seq![Char('['), Char('W'), Char('A'), Char(']')],
            InstructionId::CellSd => seq![Char('['), Char('S'), Char('D'), Char(']')],
            InstructionId::CellW => seq![Char('['), Char('W'), Char(']')],
            InstructionId::CellDw => seq![Char('['), Char('D'), Char('W'), Char(']')],
            InstructionId::CellA => seq![Char('['), Char('A'), Char(']')],
            InstructionId::CellD => seq![Char('['), Char('D'), Char(']')],
            InstructionId::CellAs => seq![Char('['), Char('A'), Char('S'), Char(']')],
            InstructionId::CellS => seq![Char('['), Char('S'), Char(']')],
            InstructionId::BoolModeOr => seq![Char('O'), Char('R')],
            InstructionId::BoolModeAnd => seq![Char('A'), Char('N'), Char('D')],
            InstructionId::Label => seq![Char('|'), Literal(LiteralType::LabelIdentifierLiteral), Char(':')],
            InstructionId::CcNotEmpty => seq![Char('='), Char('n')],
            InstructionId::CcEmpty => seq![Char('='), Char('e')],
            InstructionId::CcGravity => seq![Char('='), Char('f')],
            InstructionId::CcCrystall => seq![Char('='), Char('c')],
            InstructionId::CcAlive => seq![Char('='), Char('a')],
            InstructionId::CcBolder => seq![Char('='), Char('b')],
            InstructionId::CcSand => seq![Char('='), Char('s')],
            InstructionId::CcRock => seq![Char('='), Char('k')],
            InstructionId::CcDead => seq![Char('='), Char('d')],
            InstructionId::CccRedRock => seq![Char('='), Char('K')],
            InstructionId::CccBlackRock => seq![Char('='), Char('B')],
            InstructionId::CcAcid => seq![Char('='), Char('A')],
            InstructionId::CccQuadro => seq![Char('='), Char('q')],
            InstructionId::CccRoad => seq![Char('='), Char('R')],
            InstructionId::CccRedBlock => seq![Char('='), Char('r')],
            InstructionId::CccYellowBlock => seq![Char('='), Char('y')],
            InstructionId::CccBox => seq![Char('='), Char('x')],
            InstructionId::CccOpor => seq![Char('='), Char('o')],
            InstructionId::CccGreenBlock => seq![Char('='), Char('g')],
            InstructionId::VarMore => seq![Char('('), Literal(LiteralType::VariableIdentifierLiteral), Char('>'), Literal(LiteralType::VariableValueLiteral), Char(')')],
            InstructionId::VarLess => seq![Char('('), Literal(LiteralType::VariableIdentifierLiteral), Char('<'), Literal(LiteralType::VariableValueLiteral), Char(')')],
            InstructionId::VarEqual => seq![Char('('), Literal(LiteralType::VariableIdentifierLiteral), Char('='), Literal(LiteralType::VariableValueLiteral), Char(')')],
            InstructionId::CellWw => seq![Char('['), Char('w'), Char(']')],
            InstructionId::CellAa => seq![Char('['), Char('a'), Char(']')],
            InstructionId::CellSs => seq![Char('['), Char('s'), Char(']')],
            InstructionId::CellDd => seq![Char('['), Char('d'), Char(']')],
            InstructionId::CellF => seq![Char('['), Char('F'), Char(']')],
            InstructionId::CellFf => seq![Char('['), Char('f'), Char(']')],
            InstructionId::GoSubF => seq![Char('='), Char('>'), Literal(LiteralType::LabelIdentifierLiteral), Char('>')],
            InstructionId::ReturnF => seq![Char('<'), Char('='), Char('|')],
            InstructionId::IfNotGoTo => seq![Char('?'), Literal(LiteralType::LabelIdentifierLiteral), Char('<')],
            InstructionId::IfGoTo => seq![Char('!'), Char('?'), Literal(LiteralType::LabelIdentifierLiteral), Char('<')],
            InstructionId::StdDigg => seq![Char('D'), Char('I'), Char('G'), Char('G'), Char(';')],
            InstructionId::StdBuild => seq![Char('B'), Char('U'), Char('I'), Char('L'), Char('D'), Char(';')],
            InstructionId::StdHeal => seq![Char('H'), Char('E'), Char('A'), Char('L'), Char(';')],
            InstructionId::ProgFlip => seq![Char('F'), Char('L'), Char('I'), Char('P'), Char(';')],
            InstructionId::StdMine => seq![Char('M'), Char('I'), Char('N'), Char('E'), Char(';')],
            InstructionId::CcGun => seq![Char('='), Char('G')],
            InstructionId::FillGun => seq![Char('F'), Char('I'), Char('L'), Char('L'), Char(';')],
            InstructionId::CbHp => seq![Char('='), Char('h'), Char('p'), Char('-')],
            InstructionId::CbHp50 => seq![Char('='), Char('h'), Char('p'), Char('5'), Char('0')],
            InstructionId::CellRightHand => seq![Char('['), Char('r'), Char(']')],
            InstructionId::CellLeftHand => seq![Char('['), Char('l'), Char(']')],
            InstructionId::ModeAutodiggOn => seq![Char('A'), Char('U'), Char('T'), Char('+')],
            InstructionId::ModeAutodiggOff => seq![Char('A'), Char('U'), Char('T'), Char('-')],
            InstructionId::ModeAgrOn => seq![Char('A'), Char('G'), Char('R'), Char('+')],
            InstructionId::ModeAgrOff => seq![Char('A'), Char('G'), Char('R'), Char('-')],
            InstructionId::ActionB1 => seq![Char('B'), Char('1'), Char(';')],
            InstructionId::ActionB3 => seq![Char('B'), Char('2'), Char(';')],
            InstructionId::ActionB2 => seq![Char('B'), Char('3'), Char(';')],
            InstructionId::ActionWb => seq![Char('V'), Char('B'), Char(';')],
            InstructionId::OnResp => seq![Char('#'), Char('R'), Literal(LiteralType::LabelIdentifierLiteral), Char('<')],
            InstructionId::ActionGeopack => seq![Char('G'), Char('E'), Char('O'), Char(';')],
            InstructionId::ActionZm => seq![Char('Z'), Char('Z'), Char(';')],
            InstructionId::ActionC190 => seq![Char('C'), Char('1'), Char('9'), Char('0'), Char(';')],
            InstructionId::ActionPoly => seq![Char('P'), Char('O'), Char('L'), Char('Y'), Char(';')],
            InstructionId::ActionUp => seq![Char('U'), Char('P'), Char(';')],
            InstructionId::ActionCraft => seq![Char('C'), Char('R'), Char('A'), Char('F'), Char('T'), Char(';')],
            InstructionId::ActionNano => seq![Char('N'), Char('A'), Char('N'), Char('O'), Char(';')],
            InstructionId::ActionRembot => seq![Char('R'), Char('E'), Char('M'), Char(';')],
            InstructionId::InvDirW => seq![Char('i'), Char('w')],
            InstructionId::InvDirA => seq![Char('i'), Char('a')],
            InstructionId::InvDirS => seq![Char('i'), Char('s')],
            InstructionId::InvDirD => seq![Char('i'), Char('d')],
            InstructionId::HandModeOn => seq![Char('H'), Char('a'), Char('n'), Char('d'), Char('+')],
            InstructionId::HandModeOff => seq![Char('H'), Char('a'), Char('n'), Char('d'), Char('-')],
            InstructionId::DebugBreak => seq![Char('!'), Char('{'), Literal(LiteralType::StringLiteral), Char('}')],
            InstructionId::DebugSet => seq![Char('{'), Literal(LiteralType::StringLiteral), Char('}')],
    }
}

/// Returns the template of the instruction token for `id`.
pub fn template_of(id: InstructionId) -> (r: Vec<TemplatePiece>)
    ensures
        r@ == instruction_template(id),
{
    match id {
            InstructionId::Empty => vec![Char(' ')],
            InstructionId::Back => vec![Char(',')],
            InstructionId::Start => vec![Char('#'), Char('S')],
            InstructionId::End => vec![Char('#'), Char('E')],
            InstructionId::MoveW => vec![Char('^'), Char('W')],
            InstructionId::MoveA => vec![Char('^'), Char('A')],
            InstructionId::MoveS => vec![Char('^'), Char('S')],
            InstructionId::MoveD => vec![Char('^'), Char('D')],
            InstructionId::Digg => vec![Char('z')],
            InstructionId::LookW => vec![Char('w')],
            InstructionId::LookA => vec![Char('a')],
            InstructionId::LookS => vec![Char('s')],
            InstructionId::LookD => vec![Char('d')],
            InstructionId::MoveF => vec![Char('^'), Char('F')],
            InstructionId::RotateCcw => vec![Char('C'), Char('C'), Char('W'), Char(';')],
            InstructionId::RotateCw => vec![Char('C'), Char('W'), Char(';')],
            InstructionId::ActionBuild => vec![Char('b')],
            InstructionId::ActionGeo => vec![Char('g')],
            InstructionId::ActionRoad => vec![Char('r')],
            InstructionId::ActionHeal => vec![Char('h')],
            InstructionId::ActionQuadro => vec![Char('q')],
            InstructionId::ActionRandom => vec![Char('R'), Char('A'), Char('N'), Char('D'), Char(';')],
            InstructionId::ActionBibika => vec![Char('B'), Char('E'), Char('E'), Char('P'), Char(';')],
            InstructionId::GoTo => vec![Char('>'), Literal(LiteralType::LabelIdentifierLiteral), Char('|')],
            InstructionId::GoSub => vec![Char(':'), Char('>'), Literal(LiteralType::LabelIdentifierLiteral), Char('>')],
            InstructionId::GoSub1 => vec![Char('-'), Char('>'), Literal(LiteralType::LabelIdentifierLiteral), Char('>')],
            InstructionId::Return => vec![Char('<'), Char('|')],
            InstructionId::Return1 => vec![Char('<'), Char('-'), Char('|')],
            InstructionId::CellWa => vec![Char('['), Char('W'), Char('A'), Char(']')],
            InstructionId::CellSd => vec![Char('['), Char('S'), Char('D'), Char(']')],
            InstructionId::CellW => vec![Char('['), Char('W'), Char(']')],
            InstructionId::CellDw => vec![Char('['), Char('D'), Char('W'), Char(']')],
            InstructionId::CellA => vec![Char('['), Char('A'), Char(']')],
            InstructionId::CellD => vec![Char('['), Char('D'), Char(']')],
            InstructionId::CellAs => vec![Char('['), Char('A'), Char('S'), Char(']')],
            InstructionId::CellS => vec![Char('['), Char('S'), Char(']')],
            InstructionId::BoolModeOr => vec![Char('O'), Char('R')],
            InstructionId::BoolModeAnd => vec![Char('A'), Char('N'), Char('D')],
            InstructionId::Label => vec![Char('|'), Literal(LiteralType::LabelIdentifierLiteral), Char(':')],
            InstructionId::CcNotEmpty => vec![Char('='), Char('n')],
            InstructionId::CcEmpty => vec![Char('='), Char('e')],
            InstructionId::CcGravity => vec![Char('='), Char('f')],
            InstructionId::CcCrystall => vec![Char('='), Char('c')],
            InstructionId::CcAlive => vec![Char('='), Char('a')],
            InstructionId::CcBolder => vec![Char('='), Char('b')],
            InstructionId::CcSand => vec![Char('='), Char('s')],
            InstructionId::CcRock => vec![Char('='), Char('k')],
            InstructionId::CcDead => vec![Char('='), Char('d')],
            InstructionId::CccRedRock => vec![Char('='), Char('K')],
            InstructionId::CccBlackRock => vec![Char('='), Char('B')],
            InstructionId::CcAcid => vec![Char('='), Char('A')],
            InstructionId::CccQuadro => vec![Char('='), Char('q')],
            InstructionId::CccRoad => vec![Char('='), Char('R')],
            InstructionId::CccRedBlock => vec![Char('='), Char('r')],
            InstructionId::CccYellowBlock => vec![Char('='), Char('y')],
            InstructionId::CccBox => vec![Char('='), Char('x')],
            InstructionId::CccOpor => vec![Char('='), Char('o')],
            InstructionId::CccGreenBlock => vec![Char('='), Char('g')],
            InstructionId::VarMore => vec![Char('('), Literal(LiteralType::VariableIdentifierLiteral), Char('>'), Literal(LiteralType::VariableValueLiteral), Char(')')],
            InstructionId::VarLess => vec![Char('('), Literal(LiteralType::VariableIdentifierLiteral), Char('<'), Literal(LiteralType::VariableValueLiteral), Char(')')],
            InstructionId::VarEqual => vec![Char('('), Literal(LiteralType::VariableIdentifierLiteral), Char('='), Literal(LiteralType::VariableValueLiteral), Char(')')],
            InstructionId::CellWw => vec![Char('['), Char('w'), Char(']')],
            InstructionId::CellAa => vec![Char('['), Char('a'), Char(']')],
            InstructionId::CellSs => vec![Char('['), Char('s'), Char(']')],
            InstructionId::CellDd => vec![Char('['), Char('d'), Char(']')],
            InstructionId::CellF => vec![Char('['), Char('F'), Char(']')],
            InstructionId::CellFf => vec![Char('['), Char('f'), Char(']')],
            InstructionId::GoSubF => vec![Char('='), Char('>'), Literal(LiteralType::LabelIdentifierLiteral), Char('>')],
            InstructionId::ReturnF => vec![Char('<'), Char('='), Char('|')],
            InstructionId::IfNotGoTo => vec![Char('?'), Literal(LiteralType::LabelIdentifierLiteral), Char('<')],
            InstructionId::IfGoTo => vec![Char('!'), Char('?'), Literal(LiteralType::LabelIdentifierLiteral), Char('<')],
            InstructionId::StdDigg => vec![Char('D'), Char('I'), Char('G'), Char('G'), Char(';')],
            InstructionId::StdBuild => vec![Char('B'), Char('U'), Char('I'), Char('L'), Char('D'), Char(';')],
            InstructionId::StdHeal => vec![Char('H'), Char('E'), Char('A'), Char('L'), Char(';')],
            InstructionId::ProgFlip => vec![Char('F'), Char('L'), Char('I'), Char('P'), Char(';')],
            InstructionId::StdMine => vec![Char('M'), Char('I'), Char('N'), Char('E'), Char(';')],
            InstructionId::CcGun => vec![Char('='), Char('G')],
            InstructionId::FillGun => vec![Char('F'), Char('I'), Char('L'), Char('L'), Char(';')],
            InstructionId::CbHp => vec![Char('='), Char('h'), Char('p'), Char('-')],
            InstructionId::CbHp50 => vec![Char('='), Char('h'), Char('p'), Char('5'), Char('0')],
            InstructionId::CellRightHand => vec![Char('['), Char('r'), Char(']')],
            InstructionId::CellLeftHand => vec![Char('['), Char('l'), Char(']')],
            InstructionId::ModeAutodiggOn => vec![Char('A'), Char('U'), Char('T'), Char('+')],
            InstructionId::ModeAutodiggOff => vec![Char('A'), Char('U'), Char('T'), Char('-')],
            InstructionId::ModeAgrOn => vec![Char('A'), Char('G'), Char('R'), Char('+')],
            InstructionId::ModeAgrOff => vec![Char('A'), Char('G'), Char('R'), Char('-')],
            InstructionId::ActionB1 => vec![Char('B'), Char('1'), Char(';')],
            InstructionId::ActionB3 => vec![Char('B'), Char('2'), Char(';')],
            InstructionId::ActionB2 => vec![Char('B'), Char('3'), Char(';')],
            InstructionId::ActionWb => vec![Char('V'), Char('B'), Char(';')],
            InstructionId::OnResp => vec![Char('#'), Char('R'), Literal(LiteralType::LabelIdentifierLiteral), Char('<')],
            InstructionId::ActionGeopack => vec![Char('G'), Char('E'), Char('O'), Char(';')],
            InstructionId::ActionZm => vec![Char('Z'), Char('Z'), Char(';')],
            InstructionId::ActionC190 => vec![Char('C'), Char('1'), Char('9'), Char('0'), Char(';')],
            InstructionId::ActionPoly => vec![Char('P'), Char('O'), Char('L'), Char('Y'), Char(';')],
            InstructionId::ActionUp => vec![Char('U'), Char('P'), Char(';')],
            InstructionId::ActionCraft => vec![Char('C'), Char('R'), Char('A'), Char('F'), Char('T'), Char(';')],
            InstructionId::ActionNano => vec![Char('N'), Char('A'), Char('N'), Char('O'), Char(';')],
            InstructionId::ActionRembot => vec![Char('R'), Char('E'), Char('M'), Char(';')],
            InstructionId::InvDirW => vec![Char('i'), Char('w')],
            InstructionId::InvDirA => vec![Char('i'), Char('a')],
            InstructionId::InvDirS => vec![Char('i'), Char('s')],
            InstructionId::InvDirD => vec![Char('i'), Char('d')],
            InstructionId::HandModeOn => vec![Char('H'), Char('a'), Char('n'), Char('d'), Char('+')],
            InstructionId::HandModeOff => vec![Char('H'), Char('a'), Char('n'), Char('d'), Char('-')],
            InstructionId::DebugBreak => vec![Char('!'), Char('{'), Literal(LiteralType::StringLiteral), Char('}')],
            InstructionId::DebugSet => vec![Char('{'), Literal(LiteralType::StringLiteral), Char('}')],
    }
}

/// Every character of an instruction template is 7-bit ASCII.
pub proof fn lemma_template_ascii(id: InstructionId)
    ensures
        forall|k: int|
            0 <= k < instruction_template(id).len() && (#[trigger] instruction_template(id)[k]) is Char
                ==> (instruction_template(id)[k]->Char_0 as u32) < 128,
{
}

/// Number of entries in the token catalog.
pub open spec fn catalog_len() -> int {
    118
}

/// Number of position directive entries, which come first in the catalog.
pub open spec fn command_count() -> int {
    12
}

/// The instruction ids that have tokens, in catalog order.
pub open spec fn catalog_id(k: int) -> InstructionId {
    if k == 0 {
        InstructionId::Back
    } else if k == 1 {
        InstructionId::Start
    } else if k == 2 {
        InstructionId::End
    } else if k == 3 {
        InstructionId::MoveW
    } else if k == 4 {
        InstructionId::MoveA
    } else if k == 5 {
        InstructionId::MoveS
    } else if k == 6 {
        InstructionId::MoveD
    } else if k == 7 {
        InstructionId::Digg
    } else if k == 8 {
        InstructionId::LookW
    } else if k == 9 {
        InstructionId::LookA
    } else if k == 10 {
        InstructionId::LookS
    } else if k == 11 {
        InstructionId::LookD
    } else if k == 12 {
        InstructionId::MoveF
    } else if k == 13 {
        InstructionId::RotateCcw
    } else if k == 14 {
        InstructionId::RotateCw
    } else if k == 15 {
        InstructionId::ActionBuild
    } else if k == 16 {
        InstructionId::ActionGeo
    } else if k == 17 {
        InstructionId::ActionRoad
    } else if k == 18 {
        InstructionId::ActionHeal
    } else if k == 19 {
        InstructionId::ActionQuadro
    } else if k == 20 {
        InstructionId::ActionRandom
    } else if k == 21 {
        InstructionId::ActionBibika
    } else if k == 22 {
        InstructionId::GoTo
    } else if k == 23 {
        InstructionId::GoSub
    } else if k == 24 {
        InstructionId::GoSub1
    } else if k == 25 {
        InstructionId::Return
    } else if k == 26 {
        InstructionId::Return1
    } else if k == 27 {
        InstructionId::CellWa
    } else if k == 28 {
        InstructionId::CellSd
    } else if k == 29 {
        InstructionId::CellW
    } else if k == 30 {
        InstructionId::CellDw
    } else if k == 31 {
        InstructionId::CellA
    } else if k == 32 {
        InstructionId::CellD
    } else if k == 33 {
        InstructionId::CellAs
    } else if k == 34 {
        InstructionId::CellS
    } else if k == 35 {
        InstructionId::BoolModeOr
    } else if k == 36 {
        InstructionId::BoolModeAnd
    } else if k == 37 {
        InstructionId::Label
    } else if k == 38 {
        InstructionId::CcNotEmpty
    } else if k == 39 {
        InstructionId::CcEmpty
    } else if k == 40 {
        InstructionId::CcGravity
    } else if k == 41 {
        InstructionId::CcCrystall
    } else if k == 42 {
        InstructionId::CcAlive
    } else if k == 43 {
        InstructionId::CcBolder
    } else if k == 44 {
        InstructionId::CcSand
    } else if k == 45 {
        InstructionId::CcRock
    } else if k == 46 {
        InstructionId::CcDead
    } else if k == 47 {
        InstructionId::CccRedRock
    } else if k == 48 {
        InstructionId::CccBlackRock
    } else if k == 49 {
        InstructionId::CcAcid
    } else if k == 50 {
        InstructionId::CccQuadro
    } else if k == 51 {
        InstructionId::CccRoad
    } else if k == 52 {
        InstructionId::CccRedBlock
    } else if k == 53 {
        InstructionId::CccYellowBlock
    } else if k == 54 {
        InstructionId::CccBox
    } else if k == 55 {
        InstructionId::CccOpor
    } else if k == 56 {
        InstructionId::CccGreenBlock
    } else if k == 57 {
        InstructionId::VarMore
    } else if k == 58 {
        InstructionId::VarLess
    } else if k == 59 {
        InstructionId::VarEqual
    } else if k == 60 {
        InstructionId::CellWw
    } else if k == 61 {
        InstructionId::CellAa
    } else if k == 62 {
        InstructionId::CellSs
    } else if k == 63 {
        InstructionId::CellDd
    } else if k == 64 {
        InstructionId::CellF
    } else if k == 65 {
        InstructionId::CellFf
    } else if k == 66 {
        InstructionId::GoSubF
    } else if k == 67 {
        InstructionId::ReturnF
    } else if k == 68 {
        InstructionId::IfNotGoTo
    } else if k == 69 {
        InstructionId::IfGoTo
    } else if k == 70 {
        InstructionId::StdDigg
    } else if k == 71 {
        InstructionId::StdBuild
    } else if k == 72 {
        InstructionId::StdHeal
    } else if k == 73 {
        InstructionId::ProgFlip
    } else if k == 74 {
        InstructionId::StdMine
    } else if k == 75 {
        InstructionId::CcGun
    } else if k == 76 {
        InstructionId::FillGun
    } else if k == 77 {
        InstructionId::CbHp
    } else if k == 78 {
        InstructionId::CbHp50
    } else if k == 79 {
        InstructionId::CellRightHand
    } else if k == 80 {
        InstructionId::CellLeftHand
    } else if k == 81 {
        InstructionId::ModeAutodiggOn
    } else if k == 82 {
        InstructionId::ModeAutodiggOff
    } else if k == 83 {
        InstructionId::ModeAgrOn
    } else if k == 84 {
        InstructionId::ModeAgrOff
    } else if k == 85 {
        InstructionId::ActionB1
    } else if k == 86 {
        InstructionId::ActionB3
    } else if k == 87 {
        InstructionId::ActionB2
    } else if k == 88 {
        InstructionId::ActionWb
    } else if k == 89 {
        InstructionId::OnResp
    } else if k == 90 {
        InstructionId::ActionGeopack
    } else if k == 91 {
        InstructionId::ActionZm
    } else if k == 92 {
        InstructionId::ActionC190
    } else if k == 93 {
        InstructionId::ActionPoly
    } else if k == 94 {
        InstructionId::ActionUp
    } else if k == 95 {
        InstructionId::ActionCraft
    } else if k == 96 {
        InstructionId::ActionNano
    } else if k == 97 {
        InstructionId::ActionRembot
    } else if k == 98 {
        InstructionId::InvDirW
    } else if k == 99 {
        InstructionId::InvDirA
    } else if k == 100 {
        InstructionId::InvDirS
    } else if k == 101 {
        InstructionId::InvDirD
    } else if k == 102 {
        InstructionId::HandModeOn
    } else if k == 103 {
        InstructionId::HandModeOff
    } else if k == 104 {
        InstructionId::DebugBreak
    } else {
        InstructionId::DebugSet
    }
}

/// The directive of entry `k` of the catalog, for `k < 12`.
pub open spec fn command_kind(k: int) -> Command {
    if k == 0 {
        Command::OneStepForward
    } else if k == 1 {
        Command::ThreeStepsForward
    } else if k == 2 {
        Command::GoToNextRow
    } else if k == 3 {
        Command::GoToNextPage
    } else if k == 4 {
        Command::GoToNextPage
    } else if k == 5 {
        Command::SkipRows(9)
    } else if k == 6 {
        Command::SkipRows(4)
    } else if k == 7 {
        Command::SkipRows(5)
    } else if k == 8 {
        Command::SkipRows(6)
    } else if k == 9 {
        Command::SkipRows(7)
    } else if k == 10 {
        Command::SkipRows(8)
    } else {
        Command::GoToNextRow
    }
}

/// The template of entry `k` of the catalog, for `k < 12`.
pub open spec fn command_template(k: int) -> Seq<TemplatePiece> {
    if k == 0 {
        seq![Char(' ')]
    } else if k == 1 {
        seq![Char('_')]
    } else if k == 2 {
        seq![Char('\n')]
    } else if k == 3 {
        seq![Char('~'), Char('\n')]
    } else if k == 4 {
        seq![Char('~')]
    } else if k == 5 {
        seq![Char('.'), Char('0'), Char('.')]
    } else if k == 6 {
        seq![Char('.'), Char('5'), Char('.')]
    } else if k == 7 {
        seq![Char('.'), Char('6'), Char('.')]
    } else if k == 8 {
        seq![Char('.'), Char('7'), Char('.')]
    } else if k == 9 {
        seq![Char('.'), Char('8'), Char('.')]
    } else if k == 10 {
        seq![Char('.'), Char('9'), Char('.')]
    } else {
        seq![Char('.')]
    }
}

/// What entry `k` of the catalog stands for. Entries are tried in this order.
pub open spec fn catalog_kind(k: int) -> TokenKind {
    if k < command_count() {
        TokenKind::Command(command_kind(k))
    } else {
        TokenKind::Instruction(catalog_id(k - command_count()))
    }
}

/// The template of entry `k` of the catalog.
pub open spec fn catalog_template(k: int) -> Seq<TemplatePiece> {
    if k < command_count() {
        command_template(k)
    } else {
        instruction_template(catalog_id(k - command_count()))
    }
}

fn catalog_id_at(k: usize) -> (r: InstructionId)
    requires
        k < 106,
    ensures
        r == catalog_id(k as int),
{
    match k {
        0 => InstructionId::Back,
        1 => InstructionId::Start,
        2 => InstructionId::End,
        3 => InstructionId::MoveW,
        4 => InstructionId::MoveA,
        5 => InstructionId::MoveS,
        6 => InstructionId::MoveD,
        7 => InstructionId::Digg,
        8 => InstructionId::LookW,
        9 => InstructionId::LookA,
        10 => InstructionId::LookS,
        11 => InstructionId::LookD,
        12 => InstructionId::MoveF,
        13 => InstructionId::RotateCcw,
        14 => InstructionId::RotateCw,
        15 => InstructionId::ActionBuild,
        16 => InstructionId::ActionGeo,
        17 => InstructionId::ActionRoad,
        18 => InstructionId::ActionHeal,
        19 => InstructionId::ActionQuadro,
        20 => InstructionId::ActionRandom,
        21 => InstructionId::ActionBibika,
        22 => InstructionId::GoTo,
        23 => InstructionId::GoSub,
        24 => InstructionId::GoSub1,
        25 => InstructionId::Return,
        26 => InstructionId::Return1,
        27 => InstructionId::CellWa,
        28 => InstructionId::CellSd,
        29 => InstructionId::CellW,
        30 => InstructionId::CellDw,
        31 => InstructionId::CellA,
        32 => InstructionId::CellD,
        33 => InstructionId::CellAs,
        34 => InstructionId::CellS,
        35 => InstructionId::BoolModeOr,
        36 => InstructionId::BoolModeAnd,
        37 => InstructionId::Label,
        38 => InstructionId::CcNotEmpty,
        39 => InstructionId::CcEmpty,
        40 => InstructionId::CcGravity,
        41 => InstructionId::CcCrystall,
        42 => InstructionId::CcAlive,
        43 => InstructionId::CcBolder,
        44 => InstructionId::CcSand,
        45 => InstructionId::CcRock,
        46 => InstructionId::CcDead,
        47 => InstructionId::CccRedRock,
        48 => InstructionId::CccBlackRock,
        49 => InstructionId::CcAcid,
        50 => InstructionId::CccQuadro,
        51 => InstructionId::CccRoad,
        52 => InstructionId::CccRedBlock,
        53 => InstructionId::CccYellowBlock,
        54 => InstructionId::CccBox,
        55 => InstructionId::CccOpor,
        56 => InstructionId::CccGreenBlock,
        57 => InstructionId::VarMore,
        58 => InstructionId::VarLess,
        59 => InstructionId::VarEqual,
        60 => InstructionId::CellWw,
        61 => InstructionId::CellAa,
        62 => InstructionId::CellSs,
        63 => InstructionId::CellDd,
        64 => InstructionId::CellF,
        65 => InstructionId::CellFf,
        66 => InstructionId::GoSubF,
        67 => InstructionId::ReturnF,
        68 => InstructionId::IfNotGoTo,
        69 => InstructionId::IfGoTo,
        70 => InstructionId::StdDigg,
        71 => InstructionId::StdBuild,
        72 => InstructionId::StdHeal,
        73 => InstructionId::ProgFlip,
        74 => InstructionId::StdMine,
        75 => InstructionId::CcGun,
        76 => InstructionId::FillGun,
        77 => InstructionId::CbHp,
        78 => InstructionId::CbHp50,
        79 => InstructionId::CellRightHand,
        80 => InstructionId::CellLeftHand,
        81 => InstructionId::ModeAutodiggOn,
        82 => InstructionId::ModeAutodiggOff,
        83 => InstructionId::ModeAgrOn,
        84 => InstructionId::ModeAgrOff,
        85 => InstructionId::ActionB1,
        86 => InstructionId::ActionB3,
        87 => InstructionId::ActionB2,
        88 => InstructionId::ActionWb,
        89 => InstructionId::OnResp,
        90 => InstructionId::ActionGeopack,
        91 => InstructionId::ActionZm,
        92 => InstructionId::ActionC190,
        93 => InstructionId::ActionPoly,
        94 => InstructionId::ActionUp,
        95 => InstructionId::ActionCraft,
        96 => InstructionId::ActionNano,
        97 => InstructionId::ActionRembot,
        98 => InstructionId::InvDirW,
        99 => InstructionId::InvDirA,
        100 => InstructionId::InvDirS,
        101 => InstructionId::InvDirD,
        102 => InstructionId::HandModeOn,
        103 => InstructionId::HandModeOff,
        104 => InstructionId::DebugBreak,
        _ => InstructionId::DebugSet,
    }
}

/// Returns entry `k` of the catalog.
pub fn catalog_entry(k: usize) -> (r: (TokenKind, Vec<TemplatePiece>))
    requires
        k < catalog_len(),
    ensures
        r.0 == catalog_kind(k as int),
        r.1@ == catalog_template(k as int),
{
    if k < 12 {
        let kind = match k {
            0 => Command::OneStepForward,
            1 => Command::ThreeStepsForward,
            2 => Command::GoToNextRow,
            3 => Command::GoToNextPage,
            4 => Command::GoToNextPage,
            5 => Command::SkipRows(9),
            6 => Command::SkipRows(4),
            7 => Command::SkipRows(5),
            8 => Command::SkipRows(6),
            9 => Command::SkipRows(7),
            10 => Command::SkipRows(8),
            _ => Command::GoToNextRow,
        };
        let t = match k {
            0 => vec![Char(' ')],
            1 => vec![Char('_')],
            2 => vec![Char('\n')],
            3 => vec![Char('~'), Char('\n')],
            4 => vec![Char('~')],
            5 => vec![Char('.'), Char('0'), Char('.')],
            6 => vec![Char('.'), Char('5'), Char('.')],
            7 => vec![Char('.'), Char('6'), Char('.')],
            8 => vec![Char('.'), Char('7'), Char('.')],
            9 => vec![Char('.'), Char('8'), Char('.')],
            10 => vec![Char('.'), Char('9'), Char('.')],
            _ => vec![Char('.')],
        };
        (TokenKind::Command(kind), t)
    } else {
        let id = catalog_id_at(k - 12);
        (TokenKind::Instruction(id), template_of(id))
    }
}

} // verus!
