//! Building strings one character at a time.

use vstd::prelude::*;

verus! {

/// Calls `String::push`.
///
/// Trusted: the character is appended to the end of the string.
#[verifier::external_body]
pub(crate) fn string_push(text: &mut String, c: char)
    ensures
        final(text)@ == old(text)@.push(c),
{
    text.push(c);
}

} // verus!
