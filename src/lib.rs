//! Robot programs: an in-memory model and the New Text Format codec.
//!
//! - [`literals`], [`instruction`], [`program`]: the data model, a fixed grid of 3072
//!   instructions addressed by page, row and column.
//! - [`grammar`]: the tokens of the New Text Format.
//! - [`decoder`]: a strict decoder, and one that reports problems as [`diagnostics`] and goes on.
//! - [`encoder`]: the minimal directives between instructions, then each instruction's token.
//! - [`delta`]: decoding those directives lands exactly on the next instruction's slot.

pub mod literals;
pub mod utils;
pub mod instruction;
pub mod program;
pub mod grammar;
pub mod diagnostics;
pub mod lexer;
pub mod decoder;
pub mod encoder;
pub mod delta;
