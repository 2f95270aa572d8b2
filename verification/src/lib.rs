//! Diagnostic snippet rendering: a character range over a text buffer is
//! resolved to line/column positions and displayed with a line-number gutter
//! and caret markers, the way compilers point at a place in their input.

pub mod formatter;
pub mod laws;
pub mod resolve;
pub mod span;
pub mod text;
