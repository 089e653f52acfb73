//! Lexical analysis for a minimal C-like language.
//!
//! The crate turns source text into a sequence of [`Token`]s ending in
//! [`Token::Eof`], or into the single [`SyntaxError`] that describes the first
//! lexeme it cannot accept.
//!
//! - [`grammar`] defines what a scan gives, as the specification function
//!   [`grammar::scan`].
//! - [`lexer`] holds the scanner, [`tokenization`] and [`tokenize`], proved to
//!   give exactly that.
//! - [`laws`] proves what holds of every scan: that it fails fast, on the
//!   first rejected lexeme and on nothing else, and that equal texts give
//!   equal results.
//! - [`classify`], [`decimal`], [`token`], [`error`] and [`text`] hold the
//!   character classes and tables, base-ten numerals, the tokens, the error
//!   and the string building that the scanner rests on.

pub mod classify;
pub mod decimal;
pub mod error;
pub mod grammar;
pub mod laws;
pub mod lexer;
pub mod text;
pub mod token;

pub use error::SyntaxError;
pub use lexer::{tokenization, tokenize};
pub use token::Token;
