//! Contracts for the `String` operations that the library builds text with.

use vstd::prelude::*;

verus! {

/// `String::push_str`: the characters of `string` are appended, in order, to
/// those that the string already holds.
pub assume_specification[ String::push_str ](s: &mut String, string: &str)
    ensures
        final(s)@ == old(s)@ + string@,
;

/// `String::push`: the character is appended to those that the string
/// already holds.
pub assume_specification[ String::push ](s: &mut String, ch: char)
    ensures
        final(s)@ == old(s)@.push(ch),
;

/// `String::pop`: an empty string stays empty and `None` is returned;
/// otherwise the last character is removed and returned.
pub assume_specification[ String::pop ](s: &mut String) -> (c: Option<char>)
    ensures
        old(s)@.len() == 0 ==> c.is_none() && final(s)@ == old(s)@,
        old(s)@.len() > 0 ==> c == Some(old(s)@.last()) && final(s)@ == old(s)@.drop_last(),
;

} // verus!
