//! The error that ends a scan.

use crate::text::push_chars;
use vstd::prelude::*;
use vstd::string::StringExecFns;

verus! {

/// A lexical error: one message that names the cause and the offending text.
#[derive(Debug, PartialEq, Eq)]
pub struct SyntaxError {
    pub message: String,
}

impl View for SyntaxError {
    type V = Seq<char>;

    /// An error is its message.
    open spec fn view(&self) -> Seq<char> {
        self.message@
    }
}

/// The message for a character that opens no lexeme.
pub open spec fn unrecognized_character(c: char) -> Seq<char> {
    "unrecognized character "@.push(c)
}

/// The message for a word that is no keyword.
pub open spec fn unrecognized_string(word: Seq<char>) -> Seq<char> {
    "unrecognized string "@ + word
}

/// The message for a number that a 64-bit signed integer cannot hold.
pub open spec fn number_out_of_range(digits: Seq<char>) -> Seq<char> {
    "number out of range "@ + digits
}

impl SyntaxError {
    /// An error with the given message.
    pub fn new(message: String) -> (e: Self)
        ensures
            e.message == message,
    {
        SyntaxError { message }
    }

    /// The error for a character that opens no lexeme.
    pub fn unrecognized_character(c: char) -> (e: Self)
        ensures
            e@ == unrecognized_character(c),
    {
        let mut message = String::from_str("unrecognized character ");
        message.push(c);
        SyntaxError::new(message)
    }

    /// The error for a word that is no keyword.
    pub fn unrecognized_string(word: &[char]) -> (e: Self)
        ensures
            e@ == unrecognized_string(word@),
    {
        let mut message = String::from_str("unrecognized string ");
        push_chars(&mut message, word);
        SyntaxError::new(message)
    }

    /// The error for a number that a 64-bit signed integer cannot hold.
    pub fn number_out_of_range(digits: &[char]) -> (e: Self)
        ensures
            e@ == number_out_of_range(digits@),
    {
        let mut message = String::from_str("number out of range ");
        push_chars(&mut message, digits);
        SyntaxError::new(message)
    }
}

} // verus!
