//! Keyword highlighting of SQL lines for an interactive line editor.
//!
//! A line is split into tokens by `sqlparser` under a chosen [`Dialect`];
//! reserved words are painted bold green and upper-cased, everything else
//! keeps the tokenizer's own text with no styling.
pub mod dialect;
pub mod highlighter;
pub mod lexeme;

pub use dialect::Dialect;
pub use highlighter::SQLKeywordHighlighter;
pub use lexeme::Lexeme;
