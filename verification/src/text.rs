//! Small helpers on strings.

use vstd::prelude::*;

verus! {

/// Equality of two string slices, as std's `==` on `str` decides it. Trusted:
/// two slices are equal exactly when they hold the same characters.
pub assume_specification[ <str as PartialEq>::eq ](a: &str, b: &str) -> (same: bool)
    ensures
        same == (a@ == b@),
;

/// Whether `text` begins with `prefix`.
pub open spec fn starts(text: Seq<char>, prefix: Seq<char>) -> bool {
    prefix.len() <= text.len() && text.subrange(0, prefix.len() as int) == prefix
}

/// Whether `text` begins with `prefix`.
pub fn begins(text: &str, prefix: &str) -> (yes: bool)
    ensures
        yes == starts(text@, prefix@),
{
    let n = prefix.unicode_len();
    n <= text.unicode_len() && text.substring_char(0, n).eq(prefix)
}

/// `text` without its first `n` characters.
pub fn after<'a>(text: &'a str, n: usize) -> (rest: &'a str)
    requires
        n <= text@.len(),
    ensures
        rest@ == text@.subrange(n as int, text@.len() as int),
{
    text.substring_char(n, text.unicode_len())
}

} // verus!
