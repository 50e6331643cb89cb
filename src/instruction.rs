//! Instructions: their ids, kinds and payloads.

use vstd::prelude::*;
use crate::literals::{
    LabelIdentifierLiteral, StringLiteral, VariableIdentifierLiteral, VariableValueLiteral,
};

verus! {

#[derive(Copy, Clone, Debug, PartialEq, Eq)]
pub struct UnsupportedInstructionId {}

/// Instruction ids.
///
/// Each id has a numeric code in `[0, 182]` (see [`InstructionId::code`]); there are no ids for
/// the codes `13, 34, 41-42, 55-56, 61-73, 75, 78-118, 121-122, 124-130, 150-155`.
#[derive(Copy, Clone, Debug, PartialEq, Eq, Structural, Hash)]
pub enum InstructionId {
    Empty,
    Back,
    Start,
    End,
    MoveW,
    MoveA,
    MoveS,
    MoveD,
    Digg,
    LookW,
    LookA,
    LookS,
    LookD,
    MoveF,
    RotateCcw,
    RotateCw,
    ActionBuild,
    ActionGeo,
    ActionRoad,
    ActionHeal,
    ActionQuadro,
    ActionRandom,
    ActionBibika,
    GoTo,
    GoSub,
    GoSub1,
    Return,
    Return1,
    CellWa,
    CellSd,
    CellW,
    CellDw,
    CellA,
    CellD,
    CellAs,
    CellS,
    BoolModeOr,
    BoolModeAnd,
    Label,
    CcNotEmpty,
    CcEmpty,
    CcGravity,
    CcCrystall,
    CcAlive,
    CcBolder,
    CcSand,
    CcRock,
    CcDead,
    CccRedRock,
    CccBlackRock,
    CcAcid,
    CccQuadro,
    CccRoad,
    CccRedBlock,
    CccYellowBlock,
    CccBox,
    CccOpor,
    CccGreenBlock,
    VarMore,
    VarLess,
    VarEqual,
    CellWw,
    CellAa,
    CellSs,
    CellDd,
    CellF,
    CellFf,
    GoSubF,
    ReturnF,
    IfNotGoTo,
    IfGoTo,
    StdDigg,
    StdBuild,
    StdHeal,
    ProgFlip,
    StdMine,
    CcGun,
    FillGun,
    CbHp,
    CbHp50,
    CellRightHand,
    CellLeftHand,
    ModeAutodiggOn,
    ModeAutodiggOff,
    ModeAgrOn,
    ModeAgrOff,
    ActionB1,
    ActionB3,
    ActionB2,
    ActionWb,
    OnResp,
    ActionGeopack,
    ActionZm,
    ActionC190,
    ActionPoly,
    ActionUp,
    ActionCraft,
    ActionNano,
    ActionRembot,
    InvDirW,
    InvDirA,
    InvDirS,
    InvDirD,
    HandModeOn,
    HandModeOff,
    DebugBreak,
    DebugSet,
}

/// Instruction kinds: the payload an instruction carries besides its id.
#[derive(Copy, Clone, Debug, PartialEq, Eq, Structural)]
pub enum InstructionKind {
    /// Instructions of this kind don't contain any additional info.
    Simple,
    /// Instructions of this kind contain a [label literal](LabelIdentifierLiteral).
    Label,
    /// Instructions of this kind contain a [variable literal](VariableIdentifierLiteral) and a
    /// [value literal](VariableValueLiteral).
    VarCmp,
    /// Instructions of this kind contain a [string literal](StringLiteral).
    String,
}

impl InstructionId {
    /// The kind of the instructions with this id.
    pub open spec fn spec_kind(self) -> InstructionKind {
        match self {
            InstructionId::DebugBreak | InstructionId::DebugSet => InstructionKind::String,
            InstructionId::VarMore | InstructionId::VarLess | InstructionId::VarEqual => InstructionKind::VarCmp,
            InstructionId::GoTo | InstructionId::GoSub | InstructionId::GoSub1 | InstructionId::Label | InstructionId::GoSubF | InstructionId::IfNotGoTo | InstructionId::IfGoTo | InstructionId::OnResp => InstructionKind::Label,
            _ => InstructionKind::Simple,
        }
    }

    /// Returns the appropriate [`InstructionKind`].
    pub fn kind(self) -> (r: InstructionKind)
        ensures
            r == self.spec_kind(),
    {
        match self {
            InstructionId::DebugBreak | InstructionId::DebugSet => InstructionKind::String,
            InstructionId::VarMore | InstructionId::VarLess | InstructionId::VarEqual => InstructionKind::VarCmp,
            InstructionId::GoTo | InstructionId::GoSub | InstructionId::GoSub1 | InstructionId::Label | InstructionId::GoSubF | InstructionId::IfNotGoTo | InstructionId::IfGoTo | InstructionId::OnResp => InstructionKind::Label,
            _ => InstructionKind::Simple,
        }
    }

    /// The numeric code of this id.
    pub open spec fn spec_code(self) -> u8 {
        match self {
            InstructionId::Empty => 0,
            InstructionId::Back => 1,
            InstructionId::Start => 2,
            InstructionId::End => 3,
            InstructionId::MoveW => 4,
            InstructionId::MoveA => 5,
            InstructionId::MoveS => 6,
            InstructionId::MoveD => 7,
            InstructionId::Digg => 8,
            InstructionId::LookW => 9,
            InstructionId::LookA => 10,
            InstructionId::LookS => 11,
            InstructionId::LookD => 12,
            InstructionId::MoveF => 14,
            InstructionId::RotateCcw => 15,
            InstructionId::RotateCw => 16,
            InstructionId::ActionBuild => 17,
            InstructionId::ActionGeo => 18,
            InstructionId::ActionRoad => 19,
            InstructionId::ActionHeal => 20,
            InstructionId::ActionQuadro => 21,
            InstructionId::ActionRandom => 22,
            InstructionId::ActionBibika => 23,
            InstructionId::GoTo => 24,
            InstructionId::GoSub => 25,
            InstructionId::GoSub1 => 26,
            InstructionId::Return => 27,
            InstructionId::Return1 => 28,
            InstructionId::CellWa => 29,
            InstructionId::CellSd => 30,
            InstructionId::CellW => 31,
            InstructionId::CellDw => 32,
            InstructionId::CellA => 33,
            InstructionId::CellD => 35,
            InstructionId::CellAs => 36,
            InstructionId::CellS => 37,
            InstructionId::BoolModeOr => 38,
            InstructionId::BoolModeAnd => 39,
            InstructionId::Label => 40,
            InstructionId::CcNotEmpty => 43,
            InstructionId::CcEmpty => 44,
            InstructionId::CcGravity => 45,
            InstructionId::CcCrystall => 46,
            InstructionId::CcAlive => 47,
            InstructionId::CcBolder => 48,
            InstructionId::CcSand => 49,
            InstructionId::CcRock => 50,
            InstructionId::CcDead => 51,
            InstructionId::CccRedRock => 52,
            InstructionId::CccBlackRock => 53,
            InstructionId::CcAcid => 54,
            InstructionId::CccQuadro => 57,
            InstructionId::CccRoad => 58,
            InstructionId::CccRedBlock => 59,
            InstructionId::CccYellowBlock => 60,
            InstructionId::CccBox => 74,
            InstructionId::CccOpor => 76,
            InstructionId::CccGreenBlock => 77,
            InstructionId::VarMore => 119,
            InstructionId::VarLess => 120,
            InstructionId::VarEqual => 123,
            InstructionId::CellWw => 131,
            InstructionId::CellAa => 132,
            InstructionId::CellSs => 133,
            InstructionId::CellDd => 134,
            InstructionId::CellF => 135,
            InstructionId::CellFf => 136,
            InstructionId::GoSubF => 137,
            InstructionId::ReturnF => 138,
            InstructionId::IfNotGoTo => 139,
            InstructionId::IfGoTo => 140,
            InstructionId::StdDigg => 141,
            InstructionId::StdBuild => 142,
            InstructionId::StdHeal => 143,
            InstructionId::ProgFlip => 144,
            InstructionId::StdMine => 145,
            InstructionId::CcGun => 146,
            InstructionId::FillGun => 147,
            InstructionId::CbHp => 148,
            InstructionId::CbHp50 => 149,
            InstructionId::CellRightHand => 156,
            InstructionId::CellLeftHand => 157,
            InstructionId::ModeAutodiggOn => 158,
            InstructionId::ModeAutodiggOff => 159,
            InstructionId::ModeAgrOn => 160,
            InstructionId::ModeAgrOff => 161,
            InstructionId::ActionB1 => 162,
            InstructionId::ActionB3 => 163,
            InstructionId::ActionB2 => 164,
            InstructionId::ActionWb => 165,
            InstructionId::OnResp => 166,
            InstructionId::ActionGeopack => 167,
            InstructionId::ActionZm => 168,
            InstructionId::ActionC190 => 169,
            InstructionId::ActionPoly => 170,
            InstructionId::ActionUp => 171,
            InstructionId::ActionCraft => 172,
            InstructionId::ActionNano => 173,
            InstructionId::ActionRembot => 174,
            InstructionId::InvDirW => 175,
            InstructionId::InvDirA => 176,
            InstructionId::InvDirS => 177,
            InstructionId::InvDirD => 178,
            InstructionId::HandModeOn => 179,
            InstructionId::HandModeOff => 180,
            InstructionId::DebugBreak => 181,
            InstructionId::DebugSet => 182,
        }
    }

    /// Returns the numeric code of this id.
    pub fn code(self) -> (r: u8)
        ensures
            r == self.spec_code(),
            r <= 182,
    {
        match self {
            InstructionId::Empty => 0,
            InstructionId::Back => 1,
            InstructionId::Start => 2,
            InstructionId::End => 3,
            InstructionId::MoveW => 4,
            InstructionId::MoveA => 5,
            InstructionId::MoveS => 6,
            InstructionId::MoveD => 7,
            InstructionId::Digg => 8,
            InstructionId::LookW => 9,
            InstructionId::LookA => 10,
            InstructionId::LookS => 11,
            InstructionId::LookD => 12,
            InstructionId::MoveF => 14,
            InstructionId::RotateCcw => 15,
            InstructionId::RotateCw => 16,
            InstructionId::ActionBuild => 17,
            InstructionId::ActionGeo => 18,
            InstructionId::ActionRoad => 19,
            InstructionId::ActionHeal => 20,
            InstructionId::ActionQuadro => 21,
            InstructionId::ActionRandom => 22,
            InstructionId::ActionBibika => 23,
            InstructionId::GoTo => 24,
            InstructionId::GoSub => 25,
            InstructionId::GoSub1 => 26,
            InstructionId::Return => 27,
            InstructionId::Return1 => 28,
            InstructionId::CellWa => 29,
            InstructionId::CellSd => 30,
            InstructionId::CellW => 31,
            InstructionId::CellDw => 32,
            InstructionId::CellA => 33,
            InstructionId::CellD => 35,
            InstructionId::CellAs => 36,
            InstructionId::CellS => 37,
            InstructionId::BoolModeOr => 38,
            InstructionId::BoolModeAnd => 39,
            InstructionId::Label => 40,
            InstructionId::CcNotEmpty => 43,
            InstructionId::CcEmpty => 44,
            InstructionId::CcGravity => 45,
            InstructionId::CcCrystall => 46,
            InstructionId::CcAlive => 47,
            InstructionId::CcBolder => 48,
            InstructionId::CcSand => 49,
            InstructionId::CcRock => 50,
            InstructionId::CcDead => 51,
            InstructionId::CccRedRock => 52,
            InstructionId::CccBlackRock => 53,
            InstructionId::CcAcid => 54,
            InstructionId::CccQuadro => 57,
            InstructionId::CccRoad => 58,
            InstructionId::CccRedBlock => 59,
            InstructionId::CccYellowBlock => 60,
            InstructionId::CccBox => 74,
            InstructionId::CccOpor => 76,
            InstructionId::CccGreenBlock => 77,
            InstructionId::VarMore => 119,
            InstructionId::VarLess => 120,
            InstructionId::VarEqual => 123,
            InstructionId::CellWw => 131,
            InstructionId::CellAa => 132,
            InstructionId::CellSs => 133,
            InstructionId::CellDd => 134,
            InstructionId::CellF => 135,
            InstructionId::CellFf => 136,
            InstructionId::GoSubF => 137,
            InstructionId::ReturnF => 138,
            InstructionId::IfNotGoTo => 139,
            InstructionId::IfGoTo => 140,
            InstructionId::StdDigg => 141,
            InstructionId::StdBuild => 142,
            InstructionId::StdHeal => 143,
            InstructionId::ProgFlip => 144,
            InstructionId::StdMine => 145,
            InstructionId::CcGun => 146,
            InstructionId::FillGun => 147,
            InstructionId::CbHp => 148,
            InstructionId::CbHp50 => 149,
            InstructionId::CellRightHand => 156,
            InstructionId::CellLeftHand => 157,
            InstructionId::ModeAutodiggOn => 158,
            InstructionId::ModeAutodiggOff => 159,
            InstructionId::ModeAgrOn => 160,
            InstructionId::ModeAgrOff => 161,
            InstructionId::ActionB1 => 162,
            InstructionId::ActionB3 => 163,
            InstructionId::ActionB2 => 164,
            InstructionId::ActionWb => 165,
            InstructionId::OnResp => 166,
            InstructionId::ActionGeopack => 167,
            InstructionId::ActionZm => 168,
            InstructionId::ActionC190 => 169,
            InstructionId::ActionPoly => 170,
            InstructionId::ActionUp => 171,
            InstructionId::ActionCraft => 172,
            InstructionId::ActionNano => 173,
            InstructionId::ActionRembot => 174,
            InstructionId::InvDirW => 175,
            InstructionId::InvDirA => 176,
            InstructionId::InvDirS => 177,
            InstructionId::InvDirD => 178,
            InstructionId::HandModeOn => 179,
            InstructionId::HandModeOff => 180,
            InstructionId::DebugBreak => 181,
            InstructionId::DebugSet => 182,
        }
    }
}

impl Default for InstructionId {
    /// Returns [Empty](Self::Empty).
    fn default() -> (r: Self)
        ensures
            r == InstructionId::Empty,
    {
        InstructionId::Empty
    }
}

impl From<InstructionId> for InstructionKind {
    /// Returns the appropriate [`InstructionKind`].
    fn from(instruction_id: InstructionId) -> (r: Self)
        ensures
            r == instruction_id.spec_kind(),
    {
        instruction_id.kind()
    }
}

impl vstd::std_specs::convert::FromSpecImpl<InstructionId> for InstructionKind {
    open spec fn obeys_from_spec() -> bool {
        true
    }

    open spec fn from_spec(v: InstructionId) -> InstructionKind {
        v.spec_kind()
    }
}

/// The payload of an instruction.
#[derive(Copy, Clone, Debug, PartialEq, Eq)]
pub enum InstructionData {
    Simple,
    Label(LabelIdentifierLiteral),
    VarCmp(VariableIdentifierLiteral, VariableValueLiteral),
    String(StringLiteral),
}

impl InstructionData {
    /// The kind of this payload.
    pub open spec fn spec_kind(self) -> InstructionKind {
        match self {
            InstructionData::Simple => InstructionKind::Simple,
            InstructionData::Label(_) => InstructionKind::Label,
            InstructionData::VarCmp(_, _) => InstructionKind::VarCmp,
            InstructionData::String(_) => InstructionKind::String,
        }
    }
}

/// Program instruction: an id, with the payload that the id's kind asks for.
#[derive(Copy, Clone, Debug, PartialEq, Eq)]
pub struct Instruction {
    pub(crate) id: InstructionId,
    pub(crate) data: InstructionData,
}

impl Instruction {
    #[verifier::type_invariant]
    pub open(crate) spec fn wf(self) -> bool {
        self.data.spec_kind() == self.id.spec_kind()
    }

    /// The id of this instruction.
    pub open(crate) spec fn spec_id(self) -> InstructionId {
        self.id
    }

    /// The payload of this instruction.
    pub open(crate) spec fn spec_data(self) -> InstructionData {
        self.data
    }

    /// The instruction with the given id and payload.
    pub open(crate) spec fn spec_new(id: InstructionId, data: InstructionData) -> Instruction {
        Instruction { id, data }
    }

    /// The [Empty](InstructionId::Empty) instruction.
    pub open spec fn spec_empty() -> Instruction {
        Instruction::spec_new(InstructionId::Empty, InstructionData::Simple)
    }

    /// An instruction built from an id and a payload holds exactly them.
    pub proof fn lemma_spec_new(id: InstructionId, data: InstructionData)
        ensures
            Instruction::spec_new(id, data).spec_id() == id,
            Instruction::spec_new(id, data).spec_data() == data,
    {
    }

    /// An instruction is its id with its payload, whose kind is the id's kind.
    pub proof fn lemma_fields(self)
        requires
            self.wf(),
        ensures
            self == Instruction::spec_new(self.spec_id(), self.spec_data()),
            self.spec_data().spec_kind() == self.spec_id().spec_kind(),
    {
    }

    /// Constructs a new instruction of the [`Simple`](InstructionKind::Simple) kind with the given
    /// `instruction_id`.
    ///
    /// # Errors
    /// If the given `instruction_id` is not of the [`Simple`](InstructionKind::Simple) kind, an
    /// [`UnsupportedInstructionId`] is returned.
    pub fn new_simple(instruction_id: InstructionId) -> (r: Result<Self, UnsupportedInstructionId>)
        ensures
            r is Ok <==> instruction_id.spec_kind() == InstructionKind::Simple,
            r is Ok ==> r->Ok_0 == Instruction::spec_new(instruction_id, InstructionData::Simple),
    {
        match instruction_id.kind() {
            InstructionKind::Simple => Ok(Instruction { id: instruction_id, data: InstructionData::Simple }),
            _ => Err(UnsupportedInstructionId {}),
        }
    }

    /// Constructs a new instruction of the [`Label`](InstructionKind::Label) kind.
    ///
    /// # Errors
    /// If the given `instruction_id` is not of the [`Label`](InstructionKind::Label) kind, an
    /// [`UnsupportedInstructionId`] is returned.
    pub fn new_label(instruction_id: InstructionId, label: LabelIdentifierLiteral) -> (r: Result<
        Self,
        UnsupportedInstructionId,
    >)
        ensures
            r is Ok <==> instruction_id.spec_kind() == InstructionKind::Label,
            r is Ok ==> r->Ok_0 == Instruction::spec_new(instruction_id, InstructionData::Label(label)),
    {
        match instruction_id.kind() {
            InstructionKind::Label => Ok(Instruction { id: instruction_id, data: InstructionData::Label(label) }),
            _ => Err(UnsupportedInstructionId {}),
        }
    }

    /// Constructs a new instruction of the [`VarCmp`](InstructionKind::VarCmp) kind.
    ///
    /// # Errors
    /// If the given `instruction_id` is not of the [`VarCmp`](InstructionKind::VarCmp) kind, an
    /// [`UnsupportedInstructionId`] is returned.
    pub fn new_var_cmp(
        instruction_id: InstructionId,
        name: VariableIdentifierLiteral,
        value: VariableValueLiteral,
    ) -> (r: Result<Self, UnsupportedInstructionId>)
        ensures
            r is Ok <==> instruction_id.spec_kind() == InstructionKind::VarCmp,
            r is Ok ==> r->Ok_0 == Instruction::spec_new(instruction_id, InstructionData::VarCmp(name, value)),
    {
        match instruction_id.kind() {
            InstructionKind::VarCmp => Ok(Instruction { id: instruction_id, data: InstructionData::VarCmp(name, value) }),
            _ => Err(UnsupportedInstructionId {}),
        }
    }

    /// Constructs a new instruction of the [`String`](InstructionKind::String) kind.
    ///
    /// # Errors
    /// If the given `instruction_id` is not of the [`String`](InstructionKind::String) kind, an
    /// [`UnsupportedInstructionId`] is returned.
    pub fn new_string(instruction_id: InstructionId, string: StringLiteral) -> (r: Result<
        Self,
        UnsupportedInstructionId,
    >)
        ensures
            r is Ok <==> instruction_id.spec_kind() == InstructionKind::String,
            r is Ok ==> r->Ok_0 == Instruction::spec_new(instruction_id, InstructionData::String(string)),
    {
        match instruction_id.kind() {
            InstructionKind::String => Ok(Instruction { id: instruction_id, data: InstructionData::String(string) }),
            _ => Err(UnsupportedInstructionId {}),
        }
    }

    /// Returns the [instruction id](InstructionId).
    pub fn id(&self) -> (r: InstructionId)
        ensures
            r == self.spec_id(),
    {
        self.id
    }

    /// Returns the [instruction kind](InstructionKind).
    pub fn kind(&self) -> (r: InstructionKind)
        ensures
            r == self.spec_id().spec_kind(),
    {
        self.id.kind()
    }

    /// Returns the payload; its kind is always the kind of the id.
    pub fn data(&self) -> (r: InstructionData)
        ensures
            r == self.spec_data(),
            r.spec_kind() == self.spec_id().spec_kind(),
    {
        proof {
            use_type_invariant(self);
        }
        self.data
    }
}

impl Default for Instruction {
    /// Constructs the [Empty](InstructionId::Empty) instruction.
    fn default() -> (r: Self)
        ensures
            r == Instruction::spec_empty(),
    {
        Instruction { id: InstructionId::Empty, data: InstructionData::Simple }
    }
}

} // verus!
