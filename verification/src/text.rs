//! Building strings one character at a time.

use vstd::prelude::*;

verus! {

/// `String::push` of the standard library, which appends one character to the
/// end of a string. The contract claims exactly that: afterwards the string
/// holds the characters it held before, in the same order, followed by `ch`.
/// Verus takes this on trust.
pub assume_specification[ String::push ](text: &mut String, ch: char)
    ensures
        final(text)@ == old(text)@.push(ch),
;

/// Appends the characters of `chars` to `text`, in order.
pub fn push_chars(text: &mut String, chars: &[char])
    ensures
        final(text)@ == old(text)@ + chars@,
{
    let mut k: usize = 0;
    while k < chars.len()
        invariant
            k <= chars@.len(),
            text@ == old(text)@ + chars@.take(k as int),
        decreases chars@.len() - k,
    {
        text.push(chars[k]);
        k += 1;
    }
}

} // verus!
