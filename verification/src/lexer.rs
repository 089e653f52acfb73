//! The scanner: the executable functions, each proved to give what
//! [`scan`] defines.

use crate::classify::{is_blank, is_digit, is_leading_digit, is_letter, keyword, punctuation};
use crate::decimal::{all_digits, parse_decimal};
use crate::error::SyntaxError;
use crate::grammar::{
    contribution, digits_end, ends_in_single_eof, first_rejected, followed_by, lemma_digits_end,
    lemma_letters_end, letters_end, lexeme_at, lexeme_meaning, lexeme_start, outcome, rejected,
    rejection, scan, scan_from,
};
use crate::laws::lemma_scan_outcome;
use crate::token::Token;
use vstd::prelude::*;
use vstd::slice::slice_subrange;

verus! {

/// Finds the end of the run of digits that starts at `from`.
fn scan_digits(source: &[char], from: usize) -> (end: usize)
    requires
        from <= source@.len(),
    ensures
        end == digits_end(source@, from as int),
        from <= end <= source@.len(),
{
    let mut end: usize = from;
    while end < source.len() && is_digit(source[end])
        invariant
            from <= end <= source@.len(),
            digits_end(source@, from as int) == digits_end(source@, end as int),
        decreases source@.len() - end,
    {
        end += 1;
    }
    end
}

/// Finds the end of the run of letters that starts at `from`.
fn scan_letters(source: &[char], from: usize) -> (end: usize)
    requires
        from <= source@.len(),
    ensures
        end == letters_end(source@, from as int),
        from <= end <= source@.len(),
{
    let mut end: usize = from;
    while end < source.len() && is_letter(source[end])
        invariant
            from <= end <= source@.len(),
            letters_end(source@, from as int) == letters_end(source@, end as int),
        decreases source@.len() - end,
    {
        end += 1;
    }
    end
}

/// Tokenizes a sequence of characters.
///
/// The result is what [`scan`] defines. It is the tokens of the text in
/// order, ending in the one `Token::Eof`, if and only if no lexeme of the text
/// is rejected. Otherwise it is the error of the first rejected lexeme, and
/// nothing is returned of the tokens before it.
#[verifier::loop_isolation(false)]
pub fn tokenize(source: &[char]) -> (r: Result<Vec<Token>, SyntaxError>)
    ensures
        outcome(r) == scan(source@),
        r is Ok <==> forall|at: int| lexeme_start(source@, at) ==> !rejected(source@, at),
        r matches Ok(tokens) ==> ends_in_single_eof(tokens@),
        r matches Err(error) ==> exists|at: int|
            first_rejected(source@, at) && error@ == rejection(source@, at),
{
    proof {
        lemma_scan_outcome(source@);
    }
    let mut tokens: Vec<Token> = Vec::new();
    let mut at: usize = 0;
    while at < source.len()
        invariant
            at <= source@.len(),
            scan(source@) == followed_by(tokens@, scan_from(source@, at as int)),
        decreases source@.len() - at,
    {
        let c = source[at];
        let ghost before = tokens@;
        let end: usize;
        if is_blank(c) {
            end = at + 1;
        } else if let Some(token) = punctuation(c) {
            tokens.push(token);
            end = at + 1;
        } else if is_leading_digit(c) {
            end = scan_digits(source, at);
            proof {
                lemma_digits_end(source@, at as int);
            }
            let digits = slice_subrange(source, at, end);
            assert(all_digits(digits@));
            match parse_decimal(digits) {
                Some(value) => tokens.push(Token::Number(value)),
                None => {
                    return Err(SyntaxError::number_out_of_range(digits));
                },
            }
        } else if is_letter(c) {
            end = scan_letters(source, at);
            proof {
                lemma_letters_end(source@, at as int);
            }
            let word = slice_subrange(source, at, end);
            match keyword(word) {
                Some(token) => tokens.push(token),
                None => {
                    return Err(SyntaxError::unrecognized_string(word));
                },
            }
        } else {
            return Err(SyntaxError::unrecognized_character(c));
        }
        proof {
            let found = lexeme_meaning(lexeme_at(source@, at as int))->Ok_0;
            assert(tokens@ =~= before + contribution(found));
            if let Ok(more) = scan_from(source@, end as int) {
                assert((before + contribution(found)) + more =~= before + (contribution(found)
                    + more));
            }
        }
        at = end;
    }
    let ghost before = tokens@;
    tokens.push(Token::Eof);
    assert(tokens@ =~= before + seq![Token::Eof]);
    Ok(tokens)
}

/// Tokenizes source text.
///
/// The result is what [`scan`] defines. It is the tokens of the text in
/// order, ending in the one `Token::Eof`, if and only if no lexeme of the text
/// is rejected. Otherwise it is the error of the first rejected lexeme, and
/// nothing is returned of the tokens before it.
pub fn tokenization(contents: String) -> (r: Result<Vec<Token>, SyntaxError>)
    ensures
        outcome(r) == scan(contents@),
        r is Ok <==> forall|at: int| lexeme_start(contents@, at) ==> !rejected(contents@, at),
        r matches Ok(tokens) ==> ends_in_single_eof(tokens@),
        r matches Err(error) ==> exists|at: int|
            first_rejected(contents@, at) && error@ == rejection(contents@, at),
{
    let text = contents.as_str();
    let mut source: Vec<char> = Vec::new();
    for c in it: text.chars()
        invariant
            source@ == it.seq().take(it.index()),
    {
        source.push(c);
    }
    assert(source@ == text@);
    tokenize(source.as_slice())
}

} // verus!
