//! Conversions between `&str` / `String` and `Vec<char>`.
//!
//! The path logic of this library works over character vectors, whose
//! contents Verus reasons about directly; these helpers move between that
//! representation and the string types of the public interface.
use vstd::prelude::*;

verus! {

/// Collects the characters of a string into a vector, in order.
pub(crate) fn str_to_chars(s: &str) -> (v: Vec<char>)
    ensures
        v@ == s@,
{
    let n = s.unicode_len();
    let mut v: Vec<char> = Vec::new();
    for i in 0..n
        invariant
            n == s@.len(),
            v@ == s@.take(i as int),
    {
        v.push(s.get_char(i));
        assert(s@.take(i + 1) == s@.take(i as int).push(s@[i as int]));
    }
    assert(s@.take(n as int) == s@);
    v
}

/// Relies on `String: FromIterator<char>`: collecting characters builds the
/// string holding exactly those characters in order.
#[verifier::external_body]
pub(crate) fn chars_to_string(v: &Vec<char>) -> (s: String)
    ensures
        s@ == v@,
{
    v.iter().collect()
}

} // verus!
