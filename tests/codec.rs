use m3c::diagnostics::{Diagnostic, DiagnosticId, Diagnostics, NoMagicFound, UnknownToken};
use m3c::decoder::{DeserializeErrors, TextFormatDeserializer, TextFormatDeserializerV2};
use m3c::encoder::TextFormatSerializer;
use m3c::instruction::{Instruction, InstructionId};
use m3c::literals::{
    LabelIdentifierLiteral, StringLiteral, VariableIdentifierLiteral, VariableValueLiteral,
};
use m3c::program::{InstructionPosition, Program};
use m3c::utils::CharPosition;

// region: fixtures

/// Totally empty string.
const EMPTY: &str = "";

/// Contains only magic.
const ONLY_MAGIC: &str = "$";

/// Contains only one instruction (`MoveW`) and no magic.
const NO_MAGIC_BUT_MOVE_W: &str = "^W";

/// Contains some instructions and some illegal chars to start token with.
const WITH_ILLEGAL_START_CHARS: &str = "$^W]]]]^Sфівіаві^F";

/// Contains some instructions and some illegal chars in the middle of token.
const WITH_UNKNOWN_CONTINUATION_CHARS: &str = "$^W^a^SGEa^FGE";

/// A string with all `Simple` kind instructions.
const ALL_SIMPLE: &str = "$<|<-|<=|^F^W^D^S^Aadswzghrbq,[F][W][WA][D][DW][S][SD][A][AS][r][l][f][w][d][s][a]=G=n=e=f=c=a=b=s=k=d=A=B=K=g=y=r=o=q=x=R=hp50=hp-#S#EB1;B3;B2;BEEP;RAND;VB;GEO;ZZ;POLY;C190;CRAFT;UP;NANO;REM;BUILD;DIGG;HEAL;MINE;AUT+AUT-AGR+AGR-ANDORCCW;CW;FLIP;FILL;iaidisiwHand+Hand-<|";

/// A string for testing commands. Not all commands are present.
const NOT_ALL_COMMANDS: &str = "$^W\n^A~^D_^F ^S";

/// A string for testing commands.
const COMMANDS: &str = "$^W ^W  ^W_^W_ ^W\n_  ^W__^W\n__ ^W\n__  ^W\n___^W\n___ ^W\n___  ^W\n____^W\n____ ^W\n____  ^W\n_____^W~\n^D\n ^D\n\n  ^D\n.\n_^D\n..\n_ ^D~\n_  ^D\n...\n__^D\n.5.\n__ ^D~\n\n.0.\n__  ^D~\n~\n^S~\n~\n~\n^S~\n~\n~\n~\n~\n~\n^S";

/// A string for testing all not-`Simple` kind instructions.
const LITERALS: &str = "$|:|hi:|012:>abc|:>zxc>->s12>=>sbf>!?if<?ifn<#Rrsp<(va0<0)(a=99999)(va2>-5){dst}!{bp}";

fn simple(id: InstructionId) -> Instruction {
    Instruction::new_simple(id).unwrap()
}

fn at(page: u8, row: u8, column: u8) -> InstructionPosition {
    InstructionPosition::new(page, row, column).unwrap()
}

fn label(data: [u8; 4]) -> LabelIdentifierLiteral {
    LabelIdentifierLiteral::new_from_array(data).unwrap()
}

fn empty() -> Program {
    Program::default()
}

fn with_simple(ids: &[InstructionId]) -> Program {
    let mut program = Program::default();
    for (i, id) in ids.iter().enumerate() {
        program.set(i, simple(*id));
    }
    program
}

fn only_move_w() -> Program {
    with_simple(&[InstructionId::MoveW])
}

fn moves_wsf() -> Program {
    with_simple(&[InstructionId::MoveW, InstructionId::MoveS, InstructionId::MoveF])
}

fn moves_and_looks() -> Program {
    with_simple(&[
        InstructionId::MoveW,
        InstructionId::LookA,
        InstructionId::MoveS,
        InstructionId::LookA,
        InstructionId::MoveF,
    ])
}

fn all_simple() -> Program {
    with_simple(&[
        InstructionId::Return,
        InstructionId::Return1,
        InstructionId::ReturnF,
        InstructionId::MoveF,
        InstructionId::MoveW,
        InstructionId::MoveD,
        InstructionId::MoveS,
        InstructionId::MoveA,
        InstructionId::LookA,
        InstructionId::LookD,
        InstructionId::LookS,
        InstructionId::LookW,
        InstructionId::Digg,
        InstructionId::ActionGeo,
        InstructionId::ActionHeal,
        InstructionId::ActionRoad,
        InstructionId::ActionBuild,
        InstructionId::ActionQuadro,
        InstructionId::Back,
        InstructionId::CellF,
        InstructionId::CellW,
        InstructionId::CellWa,
        InstructionId::CellD,
        InstructionId::CellDw,
        InstructionId::CellS,
        InstructionId::CellSd,
        InstructionId::CellA,
        InstructionId::CellAs,
        InstructionId::CellRightHand,
        InstructionId::CellLeftHand,
        InstructionId::CellFf,
        InstructionId::CellWw,
        InstructionId::CellDd,
        InstructionId::CellSs,
        InstructionId::CellAa,
        InstructionId::CcGun,
        InstructionId::CcNotEmpty,
        InstructionId::CcEmpty,
        InstructionId::CcGravity,
        InstructionId::CcCrystall,
        InstructionId::CcAlive,
        InstructionId::CcBolder,
        InstructionId::CcSand,
        InstructionId::CcRock,
        InstructionId::CcDead,
        InstructionId::CcAcid,
        InstructionId::CccBlackRock,
        InstructionId::CccRedRock,
        InstructionId::CccGreenBlock,
        InstructionId::CccYellowBlock,
        InstructionId::CccRedBlock,
        InstructionId::CccOpor,
        InstructionId::CccQuadro,
        InstructionId::CccBox,
        InstructionId::CccRoad,
        InstructionId::CbHp50,
        InstructionId::CbHp,
        InstructionId::Start,
        InstructionId::End,
        InstructionId::ActionB1,
        InstructionId::ActionB2,
        InstructionId::ActionB3,
        InstructionId::ActionBibika,
        InstructionId::ActionRandom,
        InstructionId::ActionWb,
        InstructionId::ActionGeopack,
        InstructionId::ActionZm,
        InstructionId::ActionPoly,
        InstructionId::ActionC190,
        InstructionId::ActionCraft,
        InstructionId::ActionUp,
        InstructionId::ActionNano,
        InstructionId::ActionRembot,
        InstructionId::StdBuild,
        InstructionId::StdDigg,
        InstructionId::StdHeal,
        InstructionId::StdMine,
        InstructionId::ModeAutodiggOn,
        InstructionId::ModeAutodiggOff,
        InstructionId::ModeAgrOn,
        InstructionId::ModeAgrOff,
        InstructionId::BoolModeAnd,
        InstructionId::BoolModeOr,
        InstructionId::RotateCcw,
        InstructionId::RotateCw,
        InstructionId::ProgFlip,
        InstructionId::FillGun,
        InstructionId::InvDirA,
        InstructionId::InvDirD,
        InstructionId::InvDirS,
        InstructionId::InvDirW,
        InstructionId::HandModeOn,
        InstructionId::HandModeOff,
        InstructionId::Return,
    ])
}

fn not_all_commands() -> Program {
    let mut program = Program::default();
    program.set_at(at(0, 0, 0), simple(InstructionId::MoveW));
    program.set_at(at(0, 1, 0), simple(InstructionId::MoveA));
    program.set_at(at(1, 0, 0), simple(InstructionId::MoveD));
    program.set_at(at(1, 0, 4), simple(InstructionId::MoveF));
    program.set_at(at(1, 0, 6), simple(InstructionId::MoveS));
    program
}

/// The program that the `COMMANDS` text stands for: sixteen `MoveW` for the column gaps, nine
/// `MoveD` for the row gaps and the move to a new page, three `MoveS` for runs of pages. The
/// five-instruction program of `NOT_ALL_COMMANDS` is a different one, which `COMMANDS` cannot
/// decode to.
fn commands() -> Program {
    let mut program = Program::default();
    let w = [
        (0, 0, 0), (0, 0, 2), (0, 0, 5), (0, 0, 9), (0, 0, 14), (0, 1, 5), (0, 1, 12), (0, 2, 7),
        (0, 3, 8), (0, 4, 9), (0, 5, 10), (0, 6, 11), (0, 7, 12), (0, 8, 13), (0, 9, 14), (0, 10, 15),
    ];
    for (p, r, c) in w {
        program.set_at(at(p, r, c), simple(InstructionId::MoveW));
    }
    let d = [
        (1, 0, 0), (1, 1, 1), (1, 3, 2), (1, 6, 3), (1, 10, 4), (2, 0, 5), (2, 5, 6), (2, 11, 7),
        (3, 11, 8),
    ];
    for (p, r, c) in d {
        program.set_at(at(p, r, c), simple(InstructionId::MoveD));
    }
    for (p, r, c) in [(5, 0, 0), (8, 0, 0), (14, 0, 0)] {
        program.set_at(at(p, r, c), simple(InstructionId::MoveS));
    }
    program
}

fn literals() -> Program {
    let mut program = Program::default();
    program.set(0, Instruction::new_label(InstructionId::Label, label([0; 4])).unwrap());
    program.set(1, Instruction::new_label(InstructionId::Label, label([b'h', b'i', 0, 0])).unwrap());
    program.set(2, Instruction::new_label(InstructionId::Label, label([b'0', b'1', b'2', 0])).unwrap());
    program.set(3, Instruction::new_label(InstructionId::GoTo, label([b'a', b'b', b'c', 0])).unwrap());
    program.set(4, Instruction::new_label(InstructionId::GoSub, label([b'z', b'x', b'c', 0])).unwrap());
    program.set(5, Instruction::new_label(InstructionId::GoSub1, label([b's', b'1', b'2', 0])).unwrap());
    program.set(6, Instruction::new_label(InstructionId::GoSubF, label([b's', b'b', b'f', 0])).unwrap());
    program.set(7, Instruction::new_label(InstructionId::IfGoTo, label([b'i', b'f', 0, 0])).unwrap());
    program.set(8, Instruction::new_label(InstructionId::IfNotGoTo, label([b'i', b'f', b'n', 0])).unwrap());
    program.set(9, Instruction::new_label(InstructionId::OnResp, label([b'r', b's', b'p', 0])).unwrap());
    program.set(
        10,
        Instruction::new_var_cmp(
            InstructionId::VarLess,
            VariableIdentifierLiteral::new_from_array([b'v', b'a', b'0', 0]).unwrap(),
            VariableValueLiteral::new_from_value(0).unwrap(),
        )
        .unwrap(),
    );
    program.set(
        11,
        Instruction::new_var_cmp(
            InstructionId::VarEqual,
            VariableIdentifierLiteral::new_from_array([b'a', 0, 0, 0]).unwrap(),
            VariableValueLiteral::new_from_value(99999).unwrap(),
        )
        .unwrap(),
    );
    program.set(
        12,
        Instruction::new_var_cmp(
            InstructionId::VarMore,
            VariableIdentifierLiteral::new_from_array([b'v', b'a', b'2', 0]).unwrap(),
            VariableValueLiteral::new_from_value(-5).unwrap(),
        )
        .unwrap(),
    );
    program.set(
        13,
        Instruction::new_string(
            InstructionId::DebugSet,
            StringLiteral::new_from_array([b'd', b's', b't', 0]).unwrap(),
        )
        .unwrap(),
    );
    program.set(
        14,
        Instruction::new_string(
            InstructionId::DebugBreak,
            StringLiteral::new_from_array([b'b', b'p', 0, 0]).unwrap(),
        )
        .unwrap(),
    );
    program
}

fn pos(index: usize, line: usize, column: usize) -> CharPosition {
    CharPosition { index, line, column }
}

fn encode(program: &Program) -> String {
    let mut buf = vec![];
    let mut se = TextFormatSerializer::new(program);
    se.serialize(&mut buf);
    String::from_utf8(buf).unwrap()
}

fn decode_v2(s: &str) -> (Program, Vec<Diagnostics>) {
    let mut program = empty();
    let de = TextFormatDeserializerV2::new(s);
    let diagnostics = de.deserialize(&mut program);
    (program, diagnostics)
}

// endregion: fixtures

// region: serializer

#[test]
fn columns() {
    let mut buf = vec![];
    for (n, expected) in [(0, ""), (1, " "), (2, "  "), (3, "_"), (4, "_ "), (5, "_  "), (6, "__")] {
        InstructionPosition::write_empty_columns(n, &mut buf);
        assert_eq!(expected.as_bytes(), buf);
        buf.clear();
    }
}

#[test]
fn rows() {
    let mut buf = vec![];
    let cases = [
        (0, "\n"),
        (1, "\n\n"),
        (2, "\n.\n"),
        (3, "\n..\n"),
        (4, "\n...\n"),
        (5, "\n.5.\n"),
        (6, "\n.6.\n"),
        (10, "\n.0.\n"),
        (11, "\n\n.0.\n"),
    ];
    for (n, expected) in cases {
        InstructionPosition::write_empty_rows(n, &mut buf);
        assert_eq!(expected.as_bytes(), buf);
        buf.clear();
    }
}

#[test]
fn pages() {
    let mut buf = vec![];
    for (n, expected) in [(0, "~"), (1, "~"), (2, "~\n~")] {
        InstructionPosition::write_page_delta(n, &mut buf);
        assert_eq!(expected.as_bytes(), buf);
        buf.clear();
    }
}

/// Tests all `Simple` kind instructions.
#[test]
fn serialize_simple_instructions() {
    let given_program = all_simple();
    let expected_string = ALL_SIMPLE;
    let mut buf = vec![];
    let mut se = TextFormatSerializer::new(&given_program);
    se.serialize(&mut buf);
    assert_eq!(expected_string, String::from_utf8(buf).unwrap());
}

/// Tests all commands.
#[test]
fn serialize_commands() {
    let given_program = commands();
    let expected_string = COMMANDS;
    let mut buf = vec![];
    let mut se = TextFormatSerializer::new(&given_program);
    se.serialize(&mut buf);
    assert_eq!(expected_string, String::from_utf8(buf).unwrap());
}

/// Tests all not `Simple` kind instructions.
#[test]
fn serialize_literals() {
    let given_program = literals();
    let expected_string = LITERALS;
    let mut buf = vec![];
    let mut se = TextFormatSerializer::new(&given_program);
    se.serialize(&mut buf);
    assert_eq!(expected_string, String::from_utf8(buf).unwrap());
}

#[test]
fn serialize_appends_to_buffer() {
    let program = moves_wsf();
    let mut buf = b"x".to_vec();
    TextFormatSerializer::new(&program).serialize(&mut buf);
    assert_eq!(buf, b"x$^W^S^F".to_vec());
}

#[test]
fn serialize_empty_program() {
    assert_eq!(encode(&empty()), "$");
}

#[test]
fn round_trip_two_moves() {
    let program = with_simple(&[InstructionId::MoveW, InstructionId::MoveS]);
    let text = encode(&program);
    assert_eq!(text, "$^W^S");
    let (decoded, diagnostics) = decode_v2(&text);
    assert_eq!(decoded, program);
    assert!(diagnostics.is_empty());
}

#[test]
fn round_trip_after_full_row_and_page() {
    let mut program = empty();
    program.set_at(at(0, 0, 15), simple(InstructionId::MoveW));
    program.set_at(at(0, 1, 3), simple(InstructionId::MoveA));
    program.set_at(at(0, 11, 15), simple(InstructionId::MoveS));
    program.set_at(at(1, 0, 2), simple(InstructionId::MoveD));
    program.set_at(at(15, 11, 15), simple(InstructionId::MoveF));
    let text = encode(&program);
    let (decoded, diagnostics) = decode_v2(&text);
    assert_eq!(decoded, program);
    assert!(diagnostics.is_empty());
    let mut strict = empty();
    TextFormatDeserializer::new_from_str(&text).deserialize(&mut strict).unwrap();
    assert_eq!(strict, program);
}

#[test]
fn round_trip_every_row_gap() {
    for gap in 0..11u8 {
        let mut program = empty();
        program.set_at(at(3, 0, 5), simple(InstructionId::Digg));
        program.set_at(at(3, gap + 1, 7), simple(InstructionId::LookW));
        program.set_at(at(7, gap, 1), simple(InstructionId::LookS));
        let (decoded, diagnostics) = decode_v2(&encode(&program));
        assert_eq!(decoded, program);
        assert!(diagnostics.is_empty());
    }
}

// endregion: serializer

// region: deserializer

#[test]
fn deserializer_deserialize_simple_instructions() {
    let given_string = ALL_SIMPLE;
    let expected_program = all_simple();
    let mut actual_program = empty();
    let de = TextFormatDeserializer::new_from_str(given_string);
    de.deserialize(&mut actual_program).unwrap();
    assert_eq!(expected_program, actual_program);
}

#[test]
fn mod_deserialize_simple_instructions() {
    let given_string = ALL_SIMPLE;
    let expected_program = all_simple();
    let mut actual_program = empty();
    let de = TextFormatDeserializer::new_from_str(given_string);
    de.deserialize(&mut actual_program).unwrap();
    assert_eq!(expected_program, actual_program);
}

#[test]
fn deserialize_not_all_commands() {
    let given_string = NOT_ALL_COMMANDS;
    let expected_program = not_all_commands();
    let mut actual_program = empty();
    let de = TextFormatDeserializer::new_from_str(given_string);
    de.deserialize(&mut actual_program).unwrap();
    assert_eq!(expected_program, actual_program);
}

#[test]
fn deserialize_commands() {
    let given_string = COMMANDS;
    let expected_program = commands();
    let mut actual_program = empty();
    let de = TextFormatDeserializer::new_from_str(given_string);
    de.deserialize(&mut actual_program).unwrap();
    assert_eq!(expected_program, actual_program);
}

#[test]
fn deserializer_deserialize_literals() {
    let given_string = LITERALS;
    let expected_program = literals();
    let mut actual_program = empty();
    let de = TextFormatDeserializer::new_from_str(given_string);
    de.deserialize(&mut actual_program).unwrap();
    assert_eq!(expected_program, actual_program);
}

#[test]
fn mod_deserialize_literals() {
    let given_string = LITERALS;
    let expected_program = literals();
    let mut actual_program = empty();
    let de = TextFormatDeserializer::new_from_str(given_string);
    de.deserialize(&mut actual_program).unwrap();
    assert_eq!(expected_program, actual_program);
}

fn check_v2(given_string: &str, expected_program: Program, expected_diagnostics: Vec<Diagnostics>) {
    let mut actual_program = empty();
    let de = TextFormatDeserializerV2::new(given_string);
    let actual_diagnostics = de.deserialize(&mut actual_program);
    assert_eq!(expected_program, actual_program);
    assert_eq!(expected_diagnostics, actual_diagnostics);
}

/// Totally empty string without magic.
#[test]
fn deserializer_deserialize_v2_empty_string() {
    check_v2(EMPTY, empty(), vec![NoMagicFound::new().into()]);
}

#[test]
fn mod_deserialize_v2_empty_string() {
    check_v2(EMPTY, empty(), vec![NoMagicFound::new().into()]);
}

/// String containing only magic.
#[test]
fn deserializer_deserialize_v2_string_with_only_magic() {
    check_v2(ONLY_MAGIC, empty(), vec![]);
}

#[test]
fn mod_deserialize_v2_string_with_only_magic() {
    check_v2(ONLY_MAGIC, empty(), vec![]);
}

/// Tests for no magic.
#[test]
fn deserializer_deserialize_v2_no_magic_but_move_w() {
    check_v2(NO_MAGIC_BUT_MOVE_W, only_move_w(), vec![NoMagicFound::new().into()]);
}

#[test]
fn mod_deserialize_v2_no_magic_but_move_w() {
    check_v2(NO_MAGIC_BUT_MOVE_W, only_move_w(), vec![NoMagicFound::new().into()]);
}

/// Tests all `Simple` kind instructions.
#[test]
fn deserializer_deserialize_v2_simple_instructions() {
    check_v2(ALL_SIMPLE, all_simple(), vec![]);
}

#[test]
fn mod_deserialize_v2_simple_instructions() {
    check_v2(ALL_SIMPLE, all_simple(), vec![]);
}

fn illegal_start_chars_diagnostics() -> Vec<Diagnostics> {
    vec![
        UnknownToken::new(pos(3, 0, 3), pos(6, 0, 6)).into(),
        UnknownToken::new(pos(9, 0, 9), pos(15, 0, 15)).into(),
    ]
}

/// The decoder goes on at the next char when a char cannot start a token.
///
/// ```text
/// 012345678901234567
/// $^W]]]]^Sфівіаві^F
///    ^^^^  ^^^^^^^
/// ```
#[test]
fn deserializer_deserialize_v2_simple_instructions_with_illegal_start_chars() {
    check_v2(WITH_ILLEGAL_START_CHARS, moves_wsf(), illegal_start_chars_diagnostics());
}

#[test]
fn mod_deserialize_v2_simple_instructions_with_illegal_start_chars() {
    check_v2(WITH_ILLEGAL_START_CHARS, moves_wsf(), illegal_start_chars_diagnostics());
}

/// Illegal token continuation ([`UnknownToken`]).
///
/// ```text
/// 01234567890123
/// $^W^a^SGEa^FGE
///    ^   ^^   ^^
/// ```
#[test]
fn deserialize_v2_unknown_token_continuation() {
    check_v2(
        WITH_UNKNOWN_CONTINUATION_CHARS,
        moves_and_looks(),
        vec![
            UnknownToken::new(pos(3, 0, 3), pos(3, 0, 3)).into(),
            UnknownToken::new(pos(7, 0, 7), pos(8, 0, 8)).into(),
            UnknownToken::new(pos(12, 0, 12), pos(13, 0, 13)).into(),
        ],
    );
}

#[test]
fn deserialize_v2_illegal_run_between_moves() {
    check_v2(
        "$^W]]]]^S",
        with_simple(&[InstructionId::MoveW, InstructionId::MoveS]),
        vec![UnknownToken::new(pos(3, 0, 3), pos(6, 0, 6)).into()],
    );
}

#[test]
fn deserialize_v2_run_at_end_of_text() {
    check_v2("$^W]]\n]", {
        let mut p = empty();
        p.set(0, simple(InstructionId::MoveW));
        p
    }, vec![
        UnknownToken::new(pos(3, 0, 3), pos(4, 0, 4)).into(),
        UnknownToken::new(pos(6, 1, 0), pos(6, 1, 0)).into(),
    ]);
}

#[test]
fn deserialize_v2_overflow_stops() {
    let (program, diagnostics) = decode_v2("$~~~~~~~~~~~~~~~^W~^S");
    let mut expected = empty();
    expected.set_at(at(15, 0, 0), simple(InstructionId::MoveW));
    assert_eq!(program, expected);
    assert_eq!(diagnostics.len(), 1);
    assert_eq!(diagnostics[0].id(), DiagnosticId::ProgramOverflow);
    assert_eq!(diagnostics[0].position(), pos(18, 0, 18));
    assert_eq!(diagnostics[0].prefixed_id(), "N03");
}

#[test]
fn deserialize_v2_keeps_first_literal_chars() {
    let (program, diagnostics) = decode_v2("$>abcdef|(x=-123456)");
    assert!(diagnostics.is_empty());
    let mut expected = empty();
    expected.set(0, Instruction::new_label(InstructionId::GoTo, label([b'a', b'b', b'c', 0])).unwrap());
    expected.set(
        1,
        Instruction::new_var_cmp(
            InstructionId::VarEqual,
            VariableIdentifierLiteral::new_from_array([b'x', 0, 0, 0]).unwrap(),
            VariableValueLiteral::new_from_value(-1234).unwrap(),
        )
        .unwrap(),
    );
    assert_eq!(program, expected);
}

#[test]
fn no_magic_diagnostic_details() {
    let d: Diagnostics = NoMagicFound::new().into();
    assert_eq!(d.prefixed_id(), "N01");
    assert_eq!(d.position(), pos(0, 0, 0));
    let u = UnknownToken::new(pos(1, 0, 1), pos(2, 0, 2));
    assert_eq!(u.start(), pos(1, 0, 1));
    assert_eq!(u.end(), pos(2, 0, 2));
    assert_eq!(u.prefixed_id(), "N02");
}

#[test]
fn strict_decoder_errors() {
    let mut program = moves_wsf();
    let de = TextFormatDeserializer::new_from_str("");
    assert!(matches!(de.deserialize(&mut program), Err(DeserializeErrors::MagicNotFoundError(_))));
    assert_eq!(program, moves_wsf());
    match TextFormatDeserializer::new_from_str("#^W").deserialize(&mut program) {
        Err(DeserializeErrors::IllegalMagicError(e)) => assert_eq!(e.illegal_magic(), '#'),
        other => panic!("unexpected {:?}", other),
    }
    let r = TextFormatDeserializer::new_from_str("$^W^x").deserialize(&mut program);
    assert!(matches!(r, Err(DeserializeErrors::UnknownInstruction(_))));
    let r = TextFormatDeserializer::new_from_str("$>abcd|").deserialize(&mut program);
    assert!(matches!(r, Err(DeserializeErrors::LiteralIsTooLong(_))));
    let r = TextFormatDeserializer::new_from_str("$~~~~~~~~~~~~~~~~").deserialize(&mut program);
    assert!(matches!(r, Err(DeserializeErrors::InstructionPositionOverflowError(_))));
}

// endregion: deserializer
