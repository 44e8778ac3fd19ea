//! What holds of every conversion, whatever the document.

pub mod content;
pub mod nesting;
pub mod scope;
pub mod tables;
