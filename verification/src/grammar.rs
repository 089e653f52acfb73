//! What the scanner computes.
//!
//! Source text is cut into lexemes by maximal munch. A lexeme is a run of
//! digits that opens with `1` to `9`, a run of letters, or a single character
//! of any other kind. Each lexeme is then read on its own: blanks give
//! nothing, punctuation, numbers and keywords give a token, and anything else
//! gives the error that ends the scan.

use crate::classify::{
    is_blank, is_digit, is_leading_digit, is_letter, punctuation, spec_keyword,
};
use crate::decimal::decimal_value;
use crate::error::{
    number_out_of_range, unrecognized_character, unrecognized_string, SyntaxError,
};
use crate::token::Token;
use vstd::prelude::*;

verus! {

/// What a scan gives: the tokens, or the message of the error.
pub type Scanned = Result<Seq<Token>, Seq<char>>;

/// The end of the run of digits that starts at `from`: the first position at
/// or after `from` that holds no digit, or the end of the text.
pub open spec fn digits_end(s: Seq<char>, from: int) -> int
    decreases s.len() - from,
{
    if 0 <= from < s.len() && is_digit(s[from]) {
        digits_end(s, from + 1)
    } else {
        from
    }
}

/// The end of the run of letters that starts at `from`: the first position at
/// or after `from` that holds no letter, or the end of the text.
pub open spec fn letters_end(s: Seq<char>, from: int) -> int
    decreases s.len() - from,
{
    if 0 <= from < s.len() && is_letter(s[from]) {
        letters_end(s, from + 1)
    } else {
        from
    }
}

/// The end of the lexeme that starts at `start`. A number takes every digit
/// that follows and a word every letter; any other character stands alone.
pub open spec fn lexeme_end(s: Seq<char>, start: int) -> int
    recommends
        0 <= start < s.len(),
{
    if is_leading_digit(s[start]) {
        digits_end(s, start)
    } else if is_letter(s[start]) {
        letters_end(s, start)
    } else {
        start + 1
    }
}

/// The lexeme that starts at `start`.
pub open spec fn lexeme_at(s: Seq<char>, start: int) -> Seq<char>
    recommends
        0 <= start < s.len(),
{
    s.subrange(start, lexeme_end(s, start))
}

/// What a lexeme stands for, read by its first character: nothing for a
/// blank, a token for punctuation, for a keyword and for a number that a
/// 64-bit signed integer can hold, and otherwise the message of the error.
pub open spec fn lexeme_meaning(lexeme: Seq<char>) -> Result<Option<Token>, Seq<char>>
    recommends
        lexeme.len() > 0,
{
    let c = lexeme[0];
    if is_blank(c) {
        Ok(None)
    } else if punctuation(c) is Some {
        Ok(punctuation(c))
    } else if is_leading_digit(c) {
        if decimal_value(lexeme) <= i64::MAX {
            Ok(Some(Token::Number(decimal_value(lexeme) as i64)))
        } else {
            Err(number_out_of_range(lexeme))
        }
    } else if is_letter(c) {
        match spec_keyword(lexeme) {
            Some(token) => Ok(Some(token)),
            None => Err(unrecognized_string(lexeme)),
        }
    } else {
        Err(unrecognized_character(c))
    }
}

/// The tokens that a lexeme contributes: one or none.
pub open spec fn contribution(found: Option<Token>) -> Seq<Token> {
    match found {
        Some(token) => seq![token],
        None => Seq::empty(),
    }
}

/// `tokens` followed by what the rest of the scan gives. An error in the rest
/// is the error of the whole.
pub open spec fn followed_by(tokens: Seq<Token>, rest: Scanned) -> Scanned {
    match rest {
        Ok(more) => Ok(tokens + more),
        Err(message) => Err(message),
    }
}

/// The scan of `s` from position `start` on. At the end of the text it gives
/// the end marker alone. Before that it reads the lexeme at `start`: an
/// error there is the result, and otherwise the lexeme's token, if it has
/// one, comes before what the scan gives from the lexeme's end on.
pub open spec fn scan_from(s: Seq<char>, start: int) -> Scanned
    decreases s.len() - start,
    when 0 <= start
    via scan_from_terminates
{
    if start >= s.len() {
        Ok(seq![Token::Eof])
    } else {
        match lexeme_meaning(lexeme_at(s, start)) {
            Err(message) => Err(message),
            Ok(found) => followed_by(contribution(found), scan_from(s, lexeme_end(s, start))),
        }
    }
}

#[via_fn]
proof fn scan_from_terminates(s: Seq<char>, start: int) {
    if start < s.len() {
        lemma_lexeme_bounds(s, start);
    }
}

/// The scan of a whole text.
pub open spec fn scan(s: Seq<char>) -> Scanned {
    scan_from(s, 0)
}

/// A run of digits is maximal: it holds digits only, and it stops at the end
/// of the text or before a character that is no digit.
pub proof fn lemma_digits_end(s: Seq<char>, from: int)
    requires
        0 <= from <= s.len(),
    ensures
        from <= digits_end(s, from) <= s.len(),
        forall|k: int| from <= k < digits_end(s, from) ==> is_digit(#[trigger] s[k]),
        digits_end(s, from) == s.len() || !is_digit(s[digits_end(s, from)]),
    decreases s.len() - from,
{
    if from < s.len() && is_digit(s[from]) {
        lemma_digits_end(s, from + 1);
    }
}

/// A run of letters is maximal: it holds letters only, and it stops at the
/// end of the text or before a character that is no letter.
pub proof fn lemma_letters_end(s: Seq<char>, from: int)
    requires
        0 <= from <= s.len(),
    ensures
        from <= letters_end(s, from) <= s.len(),
        forall|k: int| from <= k < letters_end(s, from) ==> is_letter(#[trigger] s[k]),
        letters_end(s, from) == s.len() || !is_letter(s[letters_end(s, from)]),
    decreases s.len() - from,
{
    if from < s.len() && is_letter(s[from]) {
        lemma_letters_end(s, from + 1);
    }
}

/// A lexeme is not empty and lies within the text.
pub proof fn lemma_lexeme_bounds(s: Seq<char>, start: int)
    requires
        0 <= start < s.len(),
    ensures
        start < lexeme_end(s, start) <= s.len(),
{
    lemma_digits_end(s, start + 1);
    lemma_letters_end(s, start + 1);
}

/// Whether a lexeme starts at `at`: the position lies in the text and
/// continues neither a run of digits nor a run of letters.
pub open spec fn lexeme_start(s: Seq<char>, at: int) -> bool {
    &&& 0 <= at < s.len()
    &&& at > 0 ==> !(is_digit(s[at - 1]) && is_digit(s[at]))
    &&& at > 0 ==> !(is_letter(s[at - 1]) && is_letter(s[at]))
}

/// Whether the lexeme at `at` is one that the scanner cannot accept.
pub open spec fn rejected(s: Seq<char>, at: int) -> bool {
    lexeme_meaning(lexeme_at(s, at)) is Err
}

/// The message for the lexeme at `at`, where that lexeme is rejected.
pub open spec fn rejection(s: Seq<char>, at: int) -> Seq<char>
    recommends
        rejected(s, at),
{
    lexeme_meaning(lexeme_at(s, at))->Err_0
}

/// Whether the lexeme at `at` is the first that the scanner cannot accept.
pub open spec fn first_rejected(s: Seq<char>, at: int) -> bool {
    &&& lexeme_start(s, at)
    &&& rejected(s, at)
    &&& forall|k: int| 0 <= k < at && lexeme_start(s, k) ==> !rejected(s, k)
}

/// Whether `tokens` ends in the end marker and holds it nowhere else.
pub open spec fn ends_in_single_eof(tokens: Seq<Token>) -> bool {
    &&& tokens.len() > 0
    &&& tokens.last() == Token::Eof
    &&& forall|k: int| 0 <= k < tokens.len() - 1 ==> tokens[k] != Token::Eof
}

/// The view of a result of the scanner.
pub open spec fn outcome(r: Result<Vec<Token>, SyntaxError>) -> Scanned {
    match r {
        Ok(tokens) => Ok(tokens@),
        Err(error) => Err(error@),
    }
}

} // verus!
