//! Front-end data model of a small expression/statement language: the
//! abstract syntax tree a parser assembles, the classification of lexical
//! tokens into semantic operator kinds, and the diagnostic model that renders
//! an error against the raw source text.

pub mod ast;
pub mod error;
pub mod tokens;
pub mod utils;
