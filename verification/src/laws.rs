//! What holds of every scan.

use crate::classify::{is_blank, is_digit, is_letter, punctuation, spec_keyword};
use crate::decimal::{lemma_numeral, numeral};
use crate::error::{unrecognized_string, SyntaxError};
use crate::grammar::{
    digits_end, ends_in_single_eof, first_rejected, lemma_digits_end, lemma_letters_end,
    lemma_lexeme_bounds, letters_end, lexeme_at, lexeme_end, lexeme_start, outcome, rejected,
    rejection, scan, scan_from, Scanned,
};
use crate::token::Token;
use vstd::prelude::*;

verus! {

/// Whether two results of the scanner are the same: the same tokens in the
/// same order, or errors with the same message.
pub open spec fn same_result(
    first: Result<Vec<Token>, SyntaxError>,
    second: Result<Vec<Token>, SyntaxError>,
) -> bool {
    match (first, second) {
        (Ok(a), Ok(b)) => a@ == b@,
        (Err(a), Err(b)) => a.message@ == b.message@,
        _ => false,
    }
}

/// The position after an accepted lexeme is the end of the text or the start
/// of the next lexeme, and no lexeme starts in between.
proof fn lemma_next_start(s: Seq<char>, at: int)
    requires
        lexeme_start(s, at),
        !rejected(s, at),
    ensures
        at < lexeme_end(s, at) <= s.len(),
        lexeme_end(s, at) < s.len() ==> lexeme_start(s, lexeme_end(s, at)),
        forall|k: int| at < k < lexeme_end(s, at) ==> !lexeme_start(s, k),
{
    lemma_lexeme_bounds(s, at);
    lemma_digits_end(s, at);
    lemma_letters_end(s, at);
    assert(lexeme_at(s, at)[0] == s[at]);
}

/// The scan from the start of a lexeme fails if a later lexeme is rejected,
/// and it fails with the error of the first one that is.
proof fn lemma_first_error_from(s: Seq<char>, from: int, at: int)
    requires
        lexeme_start(s, from),
        lexeme_start(s, at),
        from <= at,
        rejected(s, at),
        forall|k: int| from <= k < at && lexeme_start(s, k) ==> !rejected(s, k),
    ensures
        scan_from(s, from) == Scanned::Err(rejection(s, at)),
    decreases at - from,
{
    if from < at {
        lemma_next_start(s, from);
        lemma_first_error_from(s, lexeme_end(s, from), at);
    }
}

/// The first rejected lexeme decides the result: where the lexeme at `at` is
/// rejected and none before it is, the scan gives the error of that lexeme.
pub proof fn lemma_first_error(s: Seq<char>, at: int)
    requires
        first_rejected(s, at),
    ensures
        scan(s) == Scanned::Err(rejection(s, at)),
{
    lemma_first_error_from(s, 0, at);
}

/// The scan from the start of a lexeme fails if that lexeme or a later one
/// is rejected.
proof fn lemma_fail_fast_from(s: Seq<char>, from: int, at: int)
    requires
        lexeme_start(s, from),
        lexeme_start(s, at),
        from <= at,
        rejected(s, at),
    ensures
        scan_from(s, from) is Err,
    decreases at - from,
{
    if !rejected(s, from) {
        lemma_next_start(s, from);
        lemma_fail_fast_from(s, lexeme_end(s, from), at);
    }
}

/// Scanning fails fast: a text that holds a rejected lexeme anywhere gives an
/// error and no tokens, whatever comes before that lexeme and after it.
pub proof fn lemma_fail_fast(s: Seq<char>, at: int)
    requires
        lexeme_start(s, at),
        rejected(s, at),
    ensures
        scan(s) is Err,
{
    lemma_fail_fast_from(s, 0, at);
}

/// The scan from the start of a lexeme succeeds if no lexeme from there on
/// is rejected.
proof fn lemma_accepts_from(s: Seq<char>, from: int)
    requires
        from == s.len() || lexeme_start(s, from),
        forall|k: int| from <= k && lexeme_start(s, k) ==> !rejected(s, k),
    ensures
        scan_from(s, from) is Ok,
    decreases s.len() - from,
{
    if from < s.len() {
        lemma_next_start(s, from);
        lemma_accepts_from(s, lexeme_end(s, from));
    }
}

/// Scanning fails only on a rejected lexeme: a text in which no lexeme is
/// rejected gives tokens.
pub proof fn lemma_accepts(s: Seq<char>)
    requires
        forall|k: int| lexeme_start(s, k) ==> !rejected(s, k),
    ensures
        scan(s) is Ok,
{
    lemma_accepts_from(s, 0);
}

/// Among the rejected lexemes of a text one comes first.
proof fn lemma_some_rejection_is_first(s: Seq<char>, at: int)
    requires
        lexeme_start(s, at),
        rejected(s, at),
    ensures
        exists|first: int| first_rejected(s, first),
    decreases at,
{
    if exists|k: int| 0 <= k < at && lexeme_start(s, k) && rejected(s, k) {
        let k = choose|k: int| 0 <= k < at && lexeme_start(s, k) && rejected(s, k);
        lemma_some_rejection_is_first(s, k);
    } else {
        assert(first_rejected(s, at));
    }
}

/// What every scan gives. It gives tokens if and only if no lexeme of the
/// text is rejected, and they end in the end marker and hold it nowhere
/// else. Otherwise it gives the error of the first rejected lexeme.
pub proof fn lemma_scan_outcome(s: Seq<char>)
    ensures
        scan(s) is Ok <==> forall|at: int| lexeme_start(s, at) ==> !rejected(s, at),
        scan(s) matches Ok(tokens) ==> ends_in_single_eof(tokens),
        scan(s) matches Err(message) ==> exists|at: int|
            first_rejected(s, at) && message == rejection(s, at),
{
    lemma_single_eof(s);
    if forall|at: int| lexeme_start(s, at) ==> !rejected(s, at) {
        lemma_accepts(s);
    } else {
        let at = choose|at: int| lexeme_start(s, at) && rejected(s, at);
        lemma_some_rejection_is_first(s, at);
        let first = choose|first: int| first_rejected(s, first);
        lemma_first_error(s, first);
    }
}

/// A character that is no blank, no punctuation, no digit and no letter makes
/// the scan fail, wherever in the text it stands.
pub proof fn lemma_stray_character(s: Seq<char>, at: int)
    requires
        0 <= at < s.len(),
        !is_blank(s[at]),
        punctuation(s[at]) is None,
        !is_digit(s[at]),
        !is_letter(s[at]),
    ensures
        scan(s) is Err,
{
    assert(lexeme_at(s, at)[0] == s[at]);
    lemma_fail_fast(s, at);
}

/// A zero that opens a run of digits makes the scan fail, wherever in the
/// text it stands.
pub proof fn lemma_leading_zero(s: Seq<char>, at: int)
    requires
        0 <= at < s.len(),
        s[at] == '0',
        at > 0 ==> !is_digit(s[at - 1]),
    ensures
        scan(s) is Err,
{
    assert(lexeme_at(s, at)[0] == s[at]);
    lemma_fail_fast(s, at);
}

/// A run of digits that reaches up to `to` ends there, if the text ends
/// there or goes on with a character that is no digit.
proof fn lemma_digits_run(s: Seq<char>, from: int, to: int)
    requires
        0 <= from <= to <= s.len(),
        forall|k: int| from <= k < to ==> is_digit(#[trigger] s[k]),
        to == s.len() || !is_digit(s[to]),
    ensures
        digits_end(s, from) == to,
    decreases to - from,
{
    if from < to {
        lemma_digits_run(s, from + 1, to);
    }
}

/// A run of letters that reaches up to `to` ends there, if the text ends
/// there or goes on with a character that is no letter.
proof fn lemma_letters_run(s: Seq<char>, from: int, to: int)
    requires
        0 <= from <= to <= s.len(),
        forall|k: int| from <= k < to ==> is_letter(#[trigger] s[k]),
        to == s.len() || !is_letter(s[to]),
    ensures
        letters_end(s, from) == to,
    decreases to - from,
{
    if from < to {
        lemma_letters_run(s, from + 1, to);
    }
}

/// A word that is no keyword makes the scan fail, wherever in the text it
/// stands. The word is the text from `from` up to `to`, a run of letters
/// with no letter before it and none after it.
pub proof fn lemma_unknown_word(s: Seq<char>, from: int, to: int)
    requires
        0 <= from < to <= s.len(),
        forall|k: int| from <= k < to ==> is_letter(#[trigger] s[k]),
        from > 0 ==> !is_letter(s[from - 1]),
        to < s.len() ==> !is_letter(s[to]),
        spec_keyword(s.subrange(from, to)) is None,
    ensures
        scan(s) is Err,
{
    lemma_letters_run(s, from, to);
    assert(lexeme_at(s, from)[0] == s[from]);
    lemma_fail_fast(s, from);
}

/// A word alone is read by the keyword table: a keyword gives its token and
/// the end marker, and every other word gives the error that names it.
pub proof fn lemma_lone_word(word: Seq<char>)
    requires
        word.len() > 0,
        forall|k: int| 0 <= k < word.len() ==> is_letter(#[trigger] word[k]),
    ensures
        scan(word) == (match spec_keyword(word) {
            Some(token) => Scanned::Ok(seq![token, Token::Eof]),
            None => Scanned::Err(unrecognized_string(word)),
        }),
{
    lemma_letters_run(word, 0, word.len() as int);
    assert(lexeme_at(word, 0) =~= word);
    assert(scan_from(word, word.len() as int) == Scanned::Ok(seq![Token::Eof]));
    if let Some(token) = spec_keyword(word) {
        assert(seq![token] + seq![Token::Eof] =~= seq![token, Token::Eof]);
    }
}

/// The numeral of a number above zero that a 64-bit signed integer can hold
/// gives that number and the end marker.
pub proof fn lemma_numeral_scans_back(value: i64)
    requires
        value > 0,
    ensures
        scan(numeral(value as nat)) == Scanned::Ok(seq![Token::Number(value), Token::Eof]),
{
    let s = numeral(value as nat);
    lemma_numeral(value as nat);
    lemma_digits_run(s, 0, s.len() as int);
    assert(lexeme_at(s, 0) =~= s);
    assert(scan_from(s, s.len() as int) == Scanned::Ok(seq![Token::Eof]));
    assert(seq![Token::Number(value)] + seq![Token::Eof] =~= seq![
        Token::Number(value),
        Token::Eof,
    ]);
}

/// The scan of blanks from any position on gives the end marker alone.
proof fn lemma_blank_text_from(s: Seq<char>, from: int)
    requires
        0 <= from <= s.len(),
        forall|k: int| 0 <= k < s.len() ==> is_blank(#[trigger] s[k]),
    ensures
        scan_from(s, from) == Scanned::Ok(seq![Token::Eof]),
    decreases s.len() - from,
{
    if from < s.len() {
        assert(lexeme_at(s, from)[0] == s[from]);
        lemma_blank_text_from(s, from + 1);
        assert(Seq::<Token>::empty() + seq![Token::Eof] =~= seq![Token::Eof]);
    }
}

/// A text of blanks only, the empty text among them, gives the end marker
/// alone.
pub proof fn lemma_blank_text(s: Seq<char>)
    requires
        forall|k: int| 0 <= k < s.len() ==> is_blank(#[trigger] s[k]),
    ensures
        scan(s) == Scanned::Ok(seq![Token::Eof]),
{
    lemma_blank_text_from(s, 0);
}

/// The tokens of a scan from any position on end in the end marker and hold
/// it nowhere else.
proof fn lemma_single_eof_from(s: Seq<char>, from: int)
    requires
        0 <= from,
    ensures
        scan_from(s, from) matches Ok(tokens) ==> ends_in_single_eof(tokens),
    decreases s.len() - from,
{
    if from < s.len() {
        lemma_lexeme_bounds(s, from);
        lemma_single_eof_from(s, lexeme_end(s, from));
    }
}

/// The tokens of a successful scan end in the end marker and hold it nowhere
/// else.
pub proof fn lemma_single_eof(s: Seq<char>)
    ensures
        scan(s) matches Ok(tokens) ==> ends_in_single_eof(tokens),
{
    lemma_single_eof_from(s, 0);
}

/// Tokenizing the same text twice gives the same result.
pub proof fn lemma_deterministic(
    s: Seq<char>,
    first: Result<Vec<Token>, SyntaxError>,
    second: Result<Vec<Token>, SyntaxError>,
)
    requires
        outcome(first) == scan(s),
        outcome(second) == scan(s),
    ensures
        same_result(first, second),
{
}

} // verus!
