//! A preprocessor library for converting terse ASCII math notation into
//! typesetting markup.
//!
//! The pipeline for a single line of notation is: tokenize the text into a
//! token sequence, group bracket-delimited subexpressions into a tree, fold
//! operator tokens into operator nodes by bind power, and render the final
//! tree as markup text.

/// A stack collection.
pub mod stack;
/// Character-level text helpers.
pub mod text;
/// Markup conversion trait.
pub mod to_tex;
/// Tokenization module.
pub mod lexer;
/// Parsing module.
pub mod parser;
/// Laws of the grouping, resolution and rendering stages.
pub mod laws;
/// Document-processing data and errors.
pub mod processor;
