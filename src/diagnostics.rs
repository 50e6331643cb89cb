//! Diagnostics of the New Text Format decoder.

use vstd::prelude::*;
use crate::literals::push_char;
use crate::utils::CharPosition;

verus! {

/// The ids of all diagnostics.
#[derive(Debug, Clone, Copy, PartialEq, Eq, Structural)]
pub enum DiagnosticId {
    NoMagicFound,
    UnknownToken,
    ProgramOverflow,
}

impl DiagnosticId {
    /// The number of this id.
    pub open spec fn spec_number(self) -> u8 {
        match self {
            DiagnosticId::NoMagicFound => 1,
            DiagnosticId::UnknownToken => 2,
            DiagnosticId::ProgramOverflow => 3,
        }
    }

    /// Returns the number of this id.
    pub fn number(self) -> (r: u8)
        ensures
            r == self.spec_number(),
    {
        match self {
            DiagnosticId::NoMagicFound => 1,
            DiagnosticId::UnknownToken => 2,
            DiagnosticId::ProgramOverflow => 3,
        }
    }
}

/// A diagnostic object.
pub trait Diagnostic {
    /// The id of this diagnostic.
    spec fn spec_id(&self) -> DiagnosticId;

    /// The position in the source text this diagnostic points at.
    spec fn spec_position(&self) -> CharPosition;

    /// Returns this diagnostic's [id](DiagnosticId).
    fn id(&self) -> (r: DiagnosticId)
        ensures
            r == self.spec_id(),
    ;

    /// Returns this diagnostic's position in the source text (the start position for
    /// [`UnknownToken`]).
    fn position(&self) -> (r: CharPosition)
        ensures
            r == self.spec_position(),
    ;

    /// Returns this diagnostic's id prefixed with letter `N` (for New Text Format), as two
    /// digits: `N01`, `N02`, ...
    fn prefixed_id(&self) -> (r: String)
        ensures
            r@ == seq!['N', '0', ((self.spec_id().spec_number() + '0' as u8) as char)],
    {
        let number = self.id().number();
        let mut s = String::new();
        push_char(&mut s, 'N');
        push_char(&mut s, '0');
        push_char(&mut s, (number + 48) as char);
        s
    }
}

/// No magic (`$`) at the start of the text.
#[derive(Debug, Clone, Copy, PartialEq, Eq)]
pub struct NoMagicFound;

impl NoMagicFound {
    pub fn new() -> Self {
        NoMagicFound
    }
}

impl Diagnostic for NoMagicFound {
    open spec fn spec_id(&self) -> DiagnosticId {
        DiagnosticId::NoMagicFound
    }

    /// Always the start of the text.
    open spec fn spec_position(&self) -> CharPosition {
        CharPosition { index: 0, line: 0, column: 0 }
    }

    fn id(&self) -> DiagnosticId {
        DiagnosticId::NoMagicFound
    }

    fn position(&self) -> CharPosition {
        CharPosition { index: 0, line: 0, column: 0 }
    }
}

/// A run of characters that form no token, from its first to its last character.
#[derive(Debug, Clone, Copy, PartialEq, Eq)]
pub struct UnknownToken {
    pub start: CharPosition,
    pub end: CharPosition,
}

impl UnknownToken {
    pub open spec fn spec_start(self) -> CharPosition {
        self.start
    }

    pub open spec fn spec_end(self) -> CharPosition {
        self.end
    }

    pub fn new(start: CharPosition, end: CharPosition) -> (r: Self)
        ensures
            r.spec_start() == start,
            r.spec_end() == end,
    {
        Self { start, end }
    }

    /// Returns the position of the first illegal char.
    pub fn start(&self) -> (r: CharPosition)
        ensures
            r == self.spec_start(),
    {
        self.start
    }

    /// Returns the position of the last illegal char.
    pub fn end(&self) -> (r: CharPosition)
        ensures
            r == self.spec_end(),
    {
        self.end
    }
}

impl Diagnostic for UnknownToken {
    open spec fn spec_id(&self) -> DiagnosticId {
        DiagnosticId::UnknownToken
    }

    open spec fn spec_position(&self) -> CharPosition {
        self.spec_start()
    }

    fn id(&self) -> DiagnosticId {
        DiagnosticId::UnknownToken
    }

    fn position(&self) -> CharPosition {
        self.start
    }
}

/// A token that would place an instruction, or move, past the end of the program; decoding
/// stops there.
#[derive(Debug, Clone, Copy, PartialEq, Eq)]
pub struct ProgramOverflow {
    pub position: CharPosition,
}

impl ProgramOverflow {
    pub open spec fn spec_at(self) -> CharPosition {
        self.position
    }

    pub fn new(position: CharPosition) -> (r: Self)
        ensures
            r.spec_at() == position,
    {
        Self { position }
    }
}

impl Diagnostic for ProgramOverflow {
    open spec fn spec_id(&self) -> DiagnosticId {
        DiagnosticId::ProgramOverflow
    }

    open spec fn spec_position(&self) -> CharPosition {
        self.spec_at()
    }

    fn id(&self) -> DiagnosticId {
        DiagnosticId::ProgramOverflow
    }

    fn position(&self) -> CharPosition {
        self.position
    }
}

/// All diagnostics.
#[derive(Debug, PartialEq, Clone, Copy)]
pub enum Diagnostics {
    NoMagicFound(NoMagicFound),
    UnknownToken(UnknownToken),
    ProgramOverflow(ProgramOverflow),
}

impl Diagnostic for Diagnostics {
    open spec fn spec_id(&self) -> DiagnosticId {
        match self {
            Diagnostics::NoMagicFound(x) => x.spec_id(),
            Diagnostics::UnknownToken(x) => x.spec_id(),
            Diagnostics::ProgramOverflow(x) => x.spec_id(),
        }
    }

    open spec fn spec_position(&self) -> CharPosition {
        match self {
            Diagnostics::NoMagicFound(x) => x.spec_position(),
            Diagnostics::UnknownToken(x) => x.spec_position(),
            Diagnostics::ProgramOverflow(x) => x.spec_position(),
        }
    }

    fn id(&self) -> DiagnosticId {
        match self {
            Diagnostics::NoMagicFound(x) => x.id(),
            Diagnostics::UnknownToken(x) => x.id(),
            Diagnostics::ProgramOverflow(x) => x.id(),
        }
    }

    fn position(&self) -> CharPosition {
        match self {
            Diagnostics::NoMagicFound(x) => x.position(),
            Diagnostics::UnknownToken(x) => x.position(),
            Diagnostics::ProgramOverflow(x) => x.position(),
        }
    }
}

impl From<NoMagicFound> for Diagnostics {
    fn from(x: NoMagicFound) -> (r: Diagnostics)
        ensures
            r == Diagnostics::NoMagicFound(x),
    {
        Diagnostics::NoMagicFound(x)
    }
}

impl vstd::std_specs::convert::FromSpecImpl<NoMagicFound> for Diagnostics {
    open spec fn obeys_from_spec() -> bool {
        true
    }

    open spec fn from_spec(v: NoMagicFound) -> Diagnostics {
        Diagnostics::NoMagicFound(v)
    }
}

impl From<UnknownToken> for Diagnostics {
    fn from(x: UnknownToken) -> (r: Diagnostics)
        ensures
            r == Diagnostics::UnknownToken(x),
    {
        Diagnostics::UnknownToken(x)
    }
}

impl vstd::std_specs::convert::FromSpecImpl<UnknownToken> for Diagnostics {
    open spec fn obeys_from_spec() -> bool {
        true
    }

    open spec fn from_spec(v: UnknownToken) -> Diagnostics {
        Diagnostics::UnknownToken(v)
    }
}

impl From<ProgramOverflow> for Diagnostics {
    fn from(x: ProgramOverflow) -> (r: Diagnostics)
        ensures
            r == Diagnostics::ProgramOverflow(x),
    {
        Diagnostics::ProgramOverflow(x)
    }
}

impl vstd::std_specs::convert::FromSpecImpl<ProgramOverflow> for Diagnostics {
    open spec fn obeys_from_spec() -> bool {
        true
    }

    open spec fn from_spec(v: ProgramOverflow) -> Diagnostics {
        Diagnostics::ProgramOverflow(v)
    }
}

} // verus!
