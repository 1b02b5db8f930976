//! Growable text: the few `String` operations that the buffers use.

use vstd::prelude::*;

verus! {

/// Relies on `String::with_capacity`: a new, empty text (the capacity is a hint).
#[verifier::external_body]
pub(crate) fn string_with_capacity(capacity: usize) -> (r: String)
    ensures
        r@ == Seq::<char>::empty(),
{
    String::with_capacity(capacity)
}

/// Relies on `String::push`: the character is appended.
#[verifier::external_body]
pub(crate) fn push_char(s: &mut String, c: char)
    ensures
        final(s)@ == old(s)@.push(c),
{
    s.push(c)
}

/// Relies on `String::clear`: the text becomes empty (its allocation is kept).
#[verifier::external_body]
pub(crate) fn clear_string(s: &mut String)
    ensures
        final(s)@ == Seq::<char>::empty(),
{
    s.clear()
}

/// Whether the text ends in a nul character.
pub(crate) fn ends_with_nul_char(s: &str) -> (r: bool)
    ensures
        r == (s@.len() > 0 && s@.last() == '\0'),
{
    let n = s.unicode_len();
    n > 0 && s.get_char(n - 1) == '\0'
}

} // verus!
