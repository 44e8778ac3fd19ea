//! Conversion of Rich Text Format documents to plain text.
//!
//! A document arrives as a stream of lexical tokens: braces that open and
//! close groups, control words and control symbols, and runs of text. The
//! interpreter follows the nesting of the groups, routes text into named
//! destinations, decodes it with the code page in force, and hands back the
//! content of the document body together with the diagnostics it met on the
//! way. A malformed document is never a reason to stop: what breaks the
//! format is reported and recovered from.
//!
//! - [`token`] holds the tokens, and [`repr`] the bytes that a token stands
//!   for in plain text.
//! - [`rtf_control`] holds the tables of the controls that are understood.
//! - [`destination`] and [`group`] hold the pieces of the interpreter's
//!   state, [`document`] what each token does to that state, and
//!   [`rtftotext`] the interpreter itself.
//! - [`laws`] states what holds of every conversion.
//! - [`encoding`], [`error`], [`diagnostic`], [`names`] and [`text`] hold
//!   what the others lean on.

pub mod destination;
pub mod diagnostic;
pub mod document;
pub mod encoding;
pub mod error;
pub mod group;
pub mod laws;
pub mod names;
pub mod repr;
pub mod rtf_control;
pub mod rtftotext;
pub mod text;
pub mod token;
