//! Decoded ARM system register values as styled, indented lines.
//!
//! A register value (an Exception Syndrome Register, a Main ID Register or
//! an SMCCC function ID) is decoded into a tree of bit fields by the
//! `aarch64_esr_decoder` crate. This library resolves the command line,
//! renders the tree as lines of styled spans, highlights the marked
//! sentences of the descriptions, and paints the lines for a terminal with
//! the `colored` crate.
//!
//! - [`args`]: the command line.
//! - [`decode`]: the calls into the decoder.
//! - [`field`]: the decoded fields.
//! - [`highlight`]: marked sentences in descriptions.
//! - [`line`]: lines of styled spans.
//! - [`numeral`]: numbers in binary, decimal and hexadecimal.
//! - [`paint`]: colours for a terminal.
//! - [`render`]: the field tree as lines.
//! - [`report`]: one whole run.
//! - [`text`]: strings, character by character.

pub mod args;
pub mod decode;
pub mod field;
pub mod highlight;
pub mod line;
pub mod numeral;
pub mod paint;
pub mod render;
pub mod report;
pub mod text;
