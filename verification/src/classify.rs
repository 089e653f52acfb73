//! Character classes, the punctuation table and the keyword table.

use crate::token::Token;
use vstd::prelude::*;

verus! {

/// The characters that separate lexemes and produce no token: space and
/// newline, and nothing else.
pub open spec fn spec_is_blank(c: char) -> bool {
    c == ' ' || c == '\n'
}

/// The ASCII decimal digits.
pub open spec fn spec_is_digit(c: char) -> bool {
    '0' <= c <= '9'
}

/// The digits that may open a number: `1` to `9`.
pub open spec fn spec_is_leading_digit(c: char) -> bool {
    '1' <= c <= '9'
}

/// The ASCII letters of either case.
pub open spec fn spec_is_letter(c: char) -> bool {
    ('a' <= c <= 'z') || ('A' <= c <= 'Z')
}

/// The token of a punctuation character, `None` for every other character.
pub open spec fn spec_punctuation(c: char) -> Option<Token> {
    if c == '+' {
        Some(Token::Plus)
    } else if c == '-' {
        Some(Token::Dash)
    } else if c == '*' {
        Some(Token::Star)
    } else if c == '/' {
        Some(Token::Slash)
    } else if c == '(' {
        Some(Token::LeftParen)
    } else if c == ')' {
        Some(Token::RightParen)
    } else if c == '{' {
        Some(Token::LeftBrace)
    } else if c == '}' {
        Some(Token::RightBrace)
    } else if c == ';' {
        Some(Token::Semicolon)
    } else {
        None
    }
}

/// The token of a keyword, `None` for every other word. The table has three
/// entries and is case sensitive.
pub open spec fn spec_keyword(word: Seq<char>) -> Option<Token> {
    if word == seq!['i', 'n', 't'] {
        Some(Token::IntKeyword)
    } else if word == seq!['m', 'a', 'i', 'n'] {
        Some(Token::Main)
    } else if word == seq!['r', 'e', 't', 'u', 'r', 'n'] {
        Some(Token::Return)
    } else {
        None
    }
}

/// Whether `c` is a blank.
#[verifier::when_used_as_spec(spec_is_blank)]
pub fn is_blank(c: char) -> (b: bool)
    ensures
        b == spec_is_blank(c),
{
    c == ' ' || c == '\n'
}

/// Whether `c` is a decimal digit.
#[verifier::when_used_as_spec(spec_is_digit)]
pub fn is_digit(c: char) -> (b: bool)
    ensures
        b == spec_is_digit(c),
{
    '0' <= c && c <= '9'
}

/// Whether `c` is a digit that may open a number.
#[verifier::when_used_as_spec(spec_is_leading_digit)]
pub fn is_leading_digit(c: char) -> (b: bool)
    ensures
        b == spec_is_leading_digit(c),
{
    '1' <= c && c <= '9'
}

/// Whether `c` is a letter.
#[verifier::when_used_as_spec(spec_is_letter)]
pub fn is_letter(c: char) -> (b: bool)
    ensures
        b == spec_is_letter(c),
{
    ('a' <= c && c <= 'z') || ('A' <= c && c <= 'Z')
}

/// Looks a character up in the punctuation table.
#[verifier::when_used_as_spec(spec_punctuation)]
pub fn punctuation(c: char) -> (t: Option<Token>)
    ensures
        t == spec_punctuation(c),
{
    match c {
        '+' => Some(Token::Plus),
        '-' => Some(Token::Dash),
        '*' => Some(Token::Star),
        '/' => Some(Token::Slash),
        '(' => Some(Token::LeftParen),
        ')' => Some(Token::RightParen),
        '{' => Some(Token::LeftBrace),
        '}' => Some(Token::RightBrace),
        ';' => Some(Token::Semicolon),
        _ => None,
    }
}

/// Looks a word up in the keyword table.
pub fn keyword(word: &[char]) -> (t: Option<Token>)
    ensures
        t == spec_keyword(word@),
{
    if word.len() == 3 && word[0] == 'i' && word[1] == 'n' && word[2] == 't' {
        assert(word@ =~= seq!['i', 'n', 't']);
        Some(Token::IntKeyword)
    } else if word.len() == 4 && word[0] == 'm' && word[1] == 'a' && word[2] == 'i' && word[3]
        == 'n' {
        assert(word@ =~= seq!['m', 'a', 'i', 'n']);
        Some(Token::Main)
    } else if word.len() == 6 && word[0] == 'r' && word[1] == 'e' && word[2] == 't' && word[3]
        == 'u' && word[4] == 'r' && word[5] == 'n' {
        assert(word@ =~= seq!['r', 'e', 't', 'u', 'r', 'n']);
        Some(Token::Return)
    } else {
        None
    }
}

} // verus!
