//! Facts about sequences that the other modules share.

use vstd::prelude::*;

verus! {

/// A value is in a sequence when it is its last value or stands before it.
pub proof fn lemma_contains_last<T>(s: Seq<T>, value: T)
    requires
        s.len() > 0,
    ensures
        s.contains(value) <==> s.drop_last().contains(value) || s.last() == value,
{
    let front = s.drop_last();
    if front.contains(value) {
        let i = choose|i: int| 0 <= i < front.len() && front[i] == value;
        assert(s[i] == value);
    }
    if s.last() == value {
        assert(s[s.len() - 1] == value);
    }
    if s.contains(value) {
        let i = choose|i: int| 0 <= i < s.len() && s[i] == value;
        if i < s.len() - 1 {
            assert(front[i] == value);
        }
    }
}

/// A value is in a sequence with one more value when it is that value or was
/// in the sequence before.
pub proof fn lemma_contains_pushed<T>(s: Seq<T>, pushed: T, value: T)
    ensures
        s.push(pushed).contains(value) <==> s.contains(value) || pushed == value,
{
    assert(s.push(pushed).drop_last() =~= s);
    lemma_contains_last(s.push(pushed), value);
}

} // verus!
