use m3c::instruction::{Instruction, InstructionId, InstructionKind};
use m3c::program::{InstructionPosition, Program};

#[test]
fn move_forward_through_row() {
    let mut instruction_position = InstructionPosition::new(1, 2, 15).unwrap();
    instruction_position.move_forward().unwrap();
    assert_eq!(1, instruction_position.page());
    assert_eq!(3, instruction_position.row());
    assert_eq!(0, instruction_position.column());
}

#[test]
fn move_forward_through_page() {
    let mut instruction_position = InstructionPosition::new(1, 11, 15).unwrap();
    instruction_position.move_forward().unwrap();
    assert_eq!(2, instruction_position.page());
    assert_eq!(0, instruction_position.row());
    assert_eq!(0, instruction_position.column());
}

#[test]
#[should_panic]
fn move_forward_panic() {
    let mut instruction_position = InstructionPosition::new(15, 11, 15).unwrap();
    instruction_position.move_forward().unwrap();
}

#[test]
fn move_forward_overflow_leaves_position() {
    let mut p = InstructionPosition::new(15, 11, 15).unwrap();
    assert!(p.move_forward().is_err());
    assert_eq!(p.index(), 3071);
}

#[test]
fn position_construction_and_index() {
    assert!(InstructionPosition::new(16, 0, 0).is_err());
    assert!(InstructionPosition::new(0, 12, 0).is_err());
    assert!(InstructionPosition::new(0, 0, 16).is_err());
    assert_eq!(InstructionPosition::new(1, 2, 3).unwrap().index(), 192 + 32 + 3);
    assert_eq!(InstructionPosition::default().index(), 0);
    let p = InstructionPosition::from_index(3071);
    assert_eq!((p.page(), p.row(), p.column()), (15, 11, 15));
}

#[test]
fn three_steps_rows_and_pages() {
    let mut p = InstructionPosition::new(0, 0, 14).unwrap();
    p.move_three_steps_forward().unwrap();
    assert_eq!((p.page(), p.row(), p.column()), (0, 1, 1));
    let mut end = InstructionPosition::new(15, 11, 13).unwrap();
    assert!(end.move_three_steps_forward().is_err());
    assert_eq!(end.index(), 3069);
    let mut r = InstructionPosition::new(3, 11, 7).unwrap();
    r.move_to_next_row().unwrap();
    assert_eq!((r.page(), r.row(), r.column()), (4, 0, 0));
    let mut last_row = InstructionPosition::new(15, 11, 0).unwrap();
    assert!(last_row.move_to_next_row().is_err());
    let mut q = InstructionPosition::new(14, 5, 5).unwrap();
    q.move_to_next_page().unwrap();
    assert_eq!((q.page(), q.row(), q.column()), (15, 0, 0));
    assert!(q.move_to_next_page().is_err());
}

#[test]
fn instruction_kinds_and_constructors() {
    assert_eq!(InstructionId::MoveW.kind(), InstructionKind::Simple);
    assert_eq!(InstructionId::OnResp.kind(), InstructionKind::Label);
    assert_eq!(InstructionId::VarEqual.kind(), InstructionKind::VarCmp);
    assert_eq!(InstructionId::DebugSet.kind(), InstructionKind::String);
    assert_eq!(InstructionKind::from(InstructionId::GoTo), InstructionKind::Label);
    assert!(Instruction::new_simple(InstructionId::GoTo).is_err());
    assert!(Instruction::new_simple(InstructionId::Empty).is_ok());
    assert_eq!(InstructionId::DebugSet.code(), 182);
    assert_eq!(InstructionId::MoveF.code(), 14);
    assert_eq!(Instruction::default().id(), InstructionId::Empty);
}

#[test]
fn program_reset_and_access() {
    let mut program = Program::default();
    let pos = InstructionPosition::new(2, 3, 4).unwrap();
    program.set_at(pos, Instruction::new_simple(InstructionId::MoveW).unwrap());
    assert_eq!(program.get(pos.index()).id(), InstructionId::MoveW);
    assert_eq!(program.get_at(pos).id(), InstructionId::MoveW);
    program.reset();
    assert_eq!(program, Program::default());
    assert_eq!(program.len(), 3072);
}
