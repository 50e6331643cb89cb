//! Programs: a fixed grid of instructions, and positions in it.

use vstd::prelude::*;
use crate::instruction::{Instruction, InstructionData, InstructionId};

verus! {

#[derive(Copy, Clone, Debug)]
pub struct InstructionPositionConstructionError {}

#[derive(Copy, Clone, Debug, PartialEq, Eq)]
pub struct InstructionPositionOverflowError {}

/// Number of instruction slots in a program.
pub open spec fn program_len() -> int {
    3072
}

/// The flat index of the first slot of the row that holds flat index `i`.
pub open spec fn row_start(i: int) -> int {
    (i / 16) * 16
}

/// The flat index of the first slot of the page that holds flat index `i`.
pub open spec fn page_start(i: int) -> int {
    (i / 192) * 192
}

pub(crate) proof fn lemma_row_start_step(c: int, k: int)
    requires
        0 <= c,
        0 <= k,
    ensures
        row_start(row_start(c) + 16 * k) == row_start(c) + 16 * k,
{
    let q = c / 16;
    assert((q * 16 + 16 * k) / 16 == q + k) by (nonlinear_arith);
}

/// Describes an instruction position in a program: page, row on the page, column in the row.
#[derive(Copy, Clone, Debug)]
pub struct InstructionPosition {
    pub(crate) page: u8,
    pub(crate) row: u8,
    pub(crate) column: u8,
}

impl InstructionPosition {
    #[verifier::type_invariant]
    pub open(crate) spec fn wf(self) -> bool {
        self.page < 16 && self.row < 12 && self.column < 16
    }

    pub open(crate) spec fn spec_page(self) -> int {
        self.page as int
    }

    pub open(crate) spec fn spec_row(self) -> int {
        self.row as int
    }

    pub open(crate) spec fn spec_column(self) -> int {
        self.column as int
    }

    /// The flat index: `page * 192 + row * 16 + column`.
    pub open(crate) spec fn spec_index(self) -> int {
        self.page as int * 192 + self.row as int * 16 + self.column as int
    }

    /// The position of flat index `i`.
    pub open(crate) spec fn spec_from_index(i: int) -> InstructionPosition {
        InstructionPosition {
            page: (i / 192) as u8,
            row: ((i % 192) / 16) as u8,
            column: (i % 16) as u8,
        }
    }

    pub(crate) proof fn lemma_index(self)
        requires
            self.wf(),
        ensures
            0 <= self.spec_index() < program_len(),
            Self::spec_from_index(self.spec_index()) == self,
            row_start(self.spec_index()) == self.spec_index() - self.column,
            page_start(self.spec_index()) == self.page as int * 192,
    {
    }

    /// A position is a page, a row and a column in range, and its flat index is
    /// `page * 192 + row * 16 + column`.
    pub proof fn lemma_coordinates(self)
        requires
            self.wf(),
        ensures
            0 <= self.spec_page() < 16,
            0 <= self.spec_row() < 12,
            0 <= self.spec_column() < 16,
            self.spec_index() == self.spec_page() * 192 + self.spec_row() * 16 + self.spec_column(),
            0 <= self.spec_index() < program_len(),
    {
    }

    /// Two positions with the same flat index are the same position.
    pub proof fn lemma_index_injective(a: Self, b: Self)
        requires
            a.wf(),
            b.wf(),
            a.spec_index() == b.spec_index(),
        ensures
            a == b,
    {
        a.lemma_index();
        b.lemma_index();
    }

    /// Constructs a new position with the given `page`, `row` and `column`.
    ///
    /// # Errors
    /// If `page >= 16`, `row >= 12` or `column >= 16`, an
    /// [`InstructionPositionConstructionError`] is returned.
    pub fn new(page: u8, row: u8, column: u8) -> (r: Result<Self, InstructionPositionConstructionError>)
        ensures
            r is Ok <==> page < 16 && row < 12 && column < 16,
            r is Ok ==> r->Ok_0.spec_page() == page && r->Ok_0.spec_row() == row
                && r->Ok_0.spec_column() == column,
    {
        if page >= 16 || row >= 12 || column >= 16 {
            Err(InstructionPositionConstructionError {})
        } else {
            Ok(Self { page, row, column })
        }
    }

    /// Constructs the position of flat index `index`.
    pub fn from_index(index: usize) -> (r: Self)
        requires
            index < program_len(),
        ensures
            r.spec_index() == index,
            r == Self::spec_from_index(index as int),
    {
        Self { page: (index / 192) as u8, row: ((index % 192) / 16) as u8, column: (index % 16) as u8 }
    }

    /// Returns the flat index.
    pub fn index(&self) -> (r: usize)
        ensures
            r == self.spec_index(),
            r < program_len(),
    {
        proof {
            use_type_invariant(self);
        }
        self.page as usize * 192 + self.row as usize * 16 + self.column as usize
    }

    /// Returns the index of the page.
    pub fn page(&self) -> (r: u8)
        ensures
            r == self.spec_page(),
            r < 16,
    {
        proof {
            use_type_invariant(self);
        }
        self.page
    }

    /// Returns the index of the row on the page.
    pub fn row(&self) -> (r: u8)
        ensures
            r == self.spec_row(),
            r < 12,
    {
        proof {
            use_type_invariant(self);
        }
        self.row
    }

    /// Returns the index of the column in the row.
    pub fn column(&self) -> (r: u8)
        ensures
            r == self.spec_column(),
            r < 16,
    {
        proof {
            use_type_invariant(self);
        }
        self.column
    }

    /// Moves to the next position.
    ///
    /// # Errors
    /// If this already is the last position of the program, an
    /// [`InstructionPositionOverflowError`] is returned and nothing moves.
    pub fn move_forward(&mut self) -> (r: Result<(), InstructionPositionOverflowError>)
        ensures
            r is Ok <==> old(self).spec_index() + 1 < program_len(),
            r is Ok ==> final(self).spec_index() == old(self).spec_index() + 1,
            r is Err ==> *final(self) == *old(self),
    {
        proof {
            use_type_invariant(&*self);
        }
        if self.column == 15 {
            self.move_to_next_row()
        } else {
            self.column = self.column + 1;
            Ok(())
        }
    }

    /// Moves three positions forward at once.
    ///
    /// # Errors
    /// If that would pass the last position of the program, an
    /// [`InstructionPositionOverflowError`] is returned and nothing moves.
    pub fn move_three_steps_forward(&mut self) -> (r: Result<(), InstructionPositionOverflowError>)
        ensures
            r is Ok <==> old(self).spec_index() + 3 < program_len(),
            r is Ok ==> final(self).spec_index() == old(self).spec_index() + 3,
            r is Err ==> *final(self) == *old(self),
    {
        let i = self.index();
        if i + 3 < 3072 {
            *self = Self::from_index(i + 3);
            Ok(())
        } else {
            Err(InstructionPositionOverflowError {})
        }
    }

    /// Moves to the beginning of the next row, on the next page after the last row of a page.
    ///
    /// # Errors
    /// If this position is in the last row of the last page, an
    /// [`InstructionPositionOverflowError`] is returned and nothing moves.
    pub fn move_to_next_row(&mut self) -> (r: Result<(), InstructionPositionOverflowError>)
        ensures
            r is Ok <==> row_start(old(self).spec_index()) + 16 < program_len(),
            r is Ok ==> final(self).spec_index() == row_start(old(self).spec_index()) + 16,
            r is Err ==> *final(self) == *old(self),
    {
        proof {
            use_type_invariant(&*self);
        }
        if self.row == 11 {
            self.move_to_next_page()
        } else {
            self.row = self.row + 1;
            self.column = 0;
            Ok(())
        }
    }

    /// Moves to the beginning of the next page.
    ///
    /// # Errors
    /// If this position is on the last page, an [`InstructionPositionOverflowError`] is returned
    /// and nothing moves.
    pub fn move_to_next_page(&mut self) -> (r: Result<(), InstructionPositionOverflowError>)
        ensures
            r is Ok <==> page_start(old(self).spec_index()) + 192 < program_len(),
            r is Ok ==> final(self).spec_index() == page_start(old(self).spec_index()) + 192,
            r is Err ==> *final(self) == *old(self),
    {
        proof {
            use_type_invariant(&*self);
        }
        if self.page == 15 {
            Err(InstructionPositionOverflowError {})
        } else {
            self.page = self.page + 1;
            self.row = 0;
            self.column = 0;
            Ok(())
        }
    }
}

impl Default for InstructionPosition {
    /// Constructs the position of the first instruction of a program.
    fn default() -> (r: Self)
        ensures
            r.spec_index() == 0,
    {
        Self { page: 0, row: 0, column: 0 }
    }
}

/// A program: 3072 instructions, on 16 pages of 12 rows of 16 instructions each.
#[derive(Debug, PartialEq, Eq)]
pub struct Program {
    pub(crate) instructions: [Instruction; 3072],
}

impl View for Program {
    type V = Seq<Instruction>;

    closed spec fn view(&self) -> Seq<Instruction> {
        self.instructions@
    }
}

/// The program whose instructions are all [Empty](InstructionId::Empty).
pub open spec fn empty_program() -> Seq<Instruction> {
    Seq::new(program_len() as nat, |_i: int| Instruction::spec_empty())
}

impl Program {
    /// Number of pages per program.
    pub const PAGES_PER_PROGRAM: usize = 16;
    /// Number of rows per page.
    pub const ROWS_PER_PAGE: usize = 12;
    /// Number of instructions per row.
    pub const INSTRUCTIONS_PER_ROW: usize = 16;
    /// Number of instructions per program.
    pub const INSTRUCTIONS_PER_PROGRAM: usize = 3072;

    /// Every program holds exactly 3072 instructions.
    pub fn len(&self) -> (r: usize)
        ensures
            r == self@.len(),
            r == program_len(),
    {
        3072
    }

    /// Resets all instructions of this program to [`InstructionId::Empty`].
    pub fn reset(&mut self)
        ensures
            final(self)@ == empty_program(),
    {
        let mut k: usize = 0;
        while k < 3072
            invariant
                self@.len() == program_len(),
                k <= 3072,
                forall|j: int| 0 <= j < k ==> self@[j] == Instruction::spec_empty(),
            decreases 3072 - k,
        {
            self.instructions[k] = Instruction { id: InstructionId::Empty, data: InstructionData::Simple };
            k += 1;
        }
        assert(self@ =~= empty_program());
    }

    /// Returns the instruction at flat index `index`.
    pub fn get(&self, index: usize) -> (r: Instruction)
        requires
            index < program_len(),
        ensures
            r == self@[index as int],
    {
        self.instructions[index]
    }

    /// Replaces the instruction at flat index `index`.
    pub fn set(&mut self, index: usize, instruction: Instruction)
        requires
            index < program_len(),
        ensures
            final(self)@ == old(self)@.update(index as int, instruction),
    {
        self.instructions[index] = instruction;
    }

    /// Returns the instruction at `position`.
    pub fn get_at(&self, position: InstructionPosition) -> (r: Instruction)
        ensures
            r == self@[position.spec_index()],
    {
        self.get(position.index())
    }

    /// Replaces the instruction at `position`.
    pub fn set_at(&mut self, position: InstructionPosition, instruction: Instruction)
        ensures
            final(self)@ == old(self)@.update(position.spec_index(), instruction),
    {
        self.set(position.index(), instruction)
    }
}

impl Default for Program {
    /// Constructs the program where each instruction is the [Empty](InstructionId::Empty)
    /// instruction.
    fn default() -> (r: Self)
        ensures
            r@ == empty_program(),
    {
        let instructions: [Instruction; 3072] = vstd::array::array_fill_for_copy_types(
            Instruction { id: InstructionId::Empty, data: InstructionData::Simple },
        );
        assert(instructions@ =~= empty_program());
        Program { instructions }
    }
}

} // verus!
