//! A disassembler core for the SPC700 sound processor.
//!
//! The memory image, the opcode table, the decoder, the formatter and the
//! scanning step are verified; every public function states its result over
//! mathematical models of bytes and text.

pub mod cli;
pub mod decoder;
pub mod driver;
pub mod formatter;
pub mod instruction;
pub mod spc;
pub mod text;
