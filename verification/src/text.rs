//! String building that verified code needs from std.
use vstd::prelude::*;

verus! {

/// Calls `String::push`, which std documents as appending the given
/// character to the end of the string; the contract claims exactly that of
/// the string's characters.
#[verifier::external_body]
pub(crate) fn push_char(s: &mut String, c: char)
    ensures
        final(s)@ == old(s)@.push(c),
{
    s.push(c);
}

} // verus!
