//! The tokens of the language.

use crate::decimal::{push_signed_numeral, signed_numeral};
use vstd::prelude::*;
use vstd::string::StringExecFns;

verus! {

/// A classified unit of source text. Only `Number` carries a value.
#[derive(Clone, Copy, Debug, PartialEq, Eq, Structural)]
pub enum Token {
    Number(i64),
    Plus,
    Dash,
    Star,
    Slash,
    LeftParen,
    RightParen,
    LeftBrace,
    RightBrace,
    Semicolon,
    IntKeyword,
    Main,
    Return,
    Eof,
}

impl Token {
    /// The text that shows a token: its name in capitals, and for a number
    /// the name, a space and the value in base ten.
    pub open spec fn rendering(self) -> Seq<char> {
        match self {
            Token::Number(value) => "NUMBER "@ + signed_numeral(value as int),
            Token::Plus => "PLUS"@,
            Token::Dash => "DASH"@,
            Token::Star => "STAR"@,
            Token::Slash => "SLASH"@,
            Token::LeftParen => "L_PAREN"@,
            Token::RightParen => "R_PAREN"@,
            Token::LeftBrace => "L_BRACE"@,
            Token::RightBrace => "R_BRACE"@,
            Token::Semicolon => "SEMICOLON"@,
            Token::IntKeyword => "INT"@,
            Token::Main => "MAIN"@,
            Token::Return => "RETURN"@,
            Token::Eof => "EOF"@,
        }
    }

    /// Renders the token as text.
    pub fn render(&self) -> (text: String)
        ensures
            text@ == self.rendering(),
    {
        match self {
            Token::Number(value) => {
                let mut text = String::from_str("NUMBER ");
                push_signed_numeral(&mut text, *value);
                text
            },
            Token::Plus => String::from_str("PLUS"),
            Token::Dash => String::from_str("DASH"),
            Token::Star => String::from_str("STAR"),
            Token::Slash => String::from_str("SLASH"),
            Token::LeftParen => String::from_str("L_PAREN"),
            Token::RightParen => String::from_str("R_PAREN"),
            Token::LeftBrace => String::from_str("L_BRACE"),
            Token::RightBrace => String::from_str("R_BRACE"),
            Token::Semicolon => String::from_str("SEMICOLON"),
            Token::IntKeyword => String::from_str("INT"),
            Token::Main => String::from_str("MAIN"),
            Token::Return => String::from_str("RETURN"),
            Token::Eof => String::from_str("EOF"),
        }
    }
}

} // verus!
