//! The subscription store: the set of active subscriptions, held in the order
//! in which they were added, with no subscription held twice.

use crate::grep::Grep;
use crate::pattern::{compile, regex_source, rejection};
use regex::Regex;
use vstd::prelude::*;

verus! {

/// Whether `s` holds the subscription of `owner` to exactly `pattern`.
pub open spec fn holds(s: Seq<Grep>, pattern: Seq<char>, owner: u64) -> bool {
    exists|i: int| 0 <= i < s.len() && (#[trigger] s[i]).key() == (pattern, owner)
}

/// No subscription occurs twice in `s`.
pub open spec fn distinct(s: Seq<Grep>) -> bool {
    forall|i: int, j: int| 0 <= i < j < s.len() ==> (#[trigger] s[i]).key() != (#[trigger] s[j]).key()
}

/// Where in `s` the subscription of `owner` to `pattern` stands, if `s` holds it.
pub open spec fn position(s: Seq<Grep>, pattern: Seq<char>, owner: u64) -> int {
    choose|i: int| 0 <= i < s.len() && (#[trigger] s[i]).key() == (pattern, owner)
}

/// `s` after an insertion of `grep`: unchanged where `s` holds its like already.
pub open spec fn added(s: Seq<Grep>, grep: Grep) -> Seq<Grep> {
    if holds(s, grep.pattern(), grep.1) {
        s
    } else {
        s.push(grep)
    }
}

/// `s` after a removal of the subscription of `owner` to `pattern`.
pub open spec fn removed(s: Seq<Grep>, pattern: Seq<char>, owner: u64) -> Seq<Grep> {
    if holds(s, pattern, owner) {
        s.remove(position(s, pattern, owner))
    } else {
        s
    }
}

/// The serialised form of `s`: each subscription's pattern text and owner.
pub open spec fn pairs(s: Seq<Grep>) -> Seq<(Seq<char>, u64)> {
    s.map_values(|grep: Grep| grep.key())
}

/// `s` without its repetitions: each value stands where it first occurs.
pub open spec fn first_occurrences<T>(s: Seq<T>) -> Seq<T>
    decreases s.len(),
{
    if s.len() == 0 {
        Seq::empty()
    } else {
        let before = first_occurrences(s.drop_last());
        if before.contains(s.last()) {
            before
        } else {
            before.push(s.last())
        }
    }
}

/// The engine compiles every pattern text among `input`.
pub open spec fn all_compile(input: Seq<(Seq<char>, u64)>) -> bool {
    forall|i: int| 0 <= i < input.len() ==> rejection((#[trigger] input[i]).0) is None
}

/// `after` is `before` after an insertion of a subscription of `owner` that
/// was compiled from `pattern`.
pub open spec fn inserts(before: Seq<Grep>, after: Seq<Grep>, owner: u64, pattern: Seq<char>) -> bool {
    exists|regex: Regex|
        (#[trigger] regex_source(regex)) == pattern && after == added(before, Grep(regex, owner))
}

/// The engine compiles the pattern text of every subscription in `s` anew:
/// so it is with subscriptions that were made from their text.
pub open spec fn reloadable(s: Seq<Grep>) -> bool {
    forall|i: int| 0 <= i < s.len() ==> rejection((#[trigger] s[i]).pattern()) is None
}

/// What rebuilding a store from the serialised form `input` gives: a store of
/// the pairs of `input`, each once, where every pattern text compiles; else the
/// engine's message on the first text that does not.
pub open spec fn loads(input: Seq<(Seq<char>, u64)>, res: Result<GrepSet, String>) -> bool {
    match res {
        Ok(store) => store.wf() && reloadable(store@) && all_compile(input) && pairs(store@)
            == first_occurrences(input),
        Err(message) => exists|i: int|
            0 <= i < input.len() && rejection((#[trigger] input[i]).0) == Some(message@)
                && all_compile(input.take(i)),
    }
}

/// Why an insertion added nothing.
#[derive(Debug, PartialEq, Eq)]
pub enum InsertError {
    /// The pattern text does not compile; the engine's message says why.
    InvalidPattern(String),
    /// The owner is subscribed to this very pattern text already.
    DuplicateSubscription,
}

/// The set of active subscriptions.
pub struct GrepSet {
    items: Vec<Grep>,
}

impl View for GrepSet {
    type V = Seq<Grep>;

    closed spec fn view(&self) -> Seq<Grep> {
        self.items@
    }
}

impl GrepSet {
    /// The store never holds two subscriptions with the same pattern text and owner.
    pub open spec fn wf(&self) -> bool {
        distinct(self@)
    }

    /// An empty store.
    pub fn new() -> (store: GrepSet)
        ensures
            store@ == Seq::<Grep>::empty(),
            store.wf(),
    {
        GrepSet { items: Vec::new() }
    }

    /// The number of subscriptions.
    pub fn len(&self) -> (n: usize)
        ensures
            n == self@.len(),
    {
        self.items.len()
    }

    /// Every active subscription, oldest first.
    pub fn all(&self) -> (items: &Vec<Grep>)
        ensures
            items@ == self@,
    {
        &self.items
    }

    /// Whether `owner` is subscribed to exactly `pattern`.
    pub fn contains(&self, owner: u64, pattern: &str) -> (found: bool)
        ensures
            found == holds(self@, pattern@, owner),
    {
        let mut i: usize = 0;
        while i < self.items.len()
            invariant
                i <= self.items.len(),
                forall|k: int| 0 <= k < i ==> (#[trigger] self.items@[k]).key() != (pattern@, owner),
            decreases self.items.len() - i,
        {
            if self.items[i].is_for(owner, pattern) {
                return true;
            }
            i += 1;
        }
        false
    }

    /// Subscribes `owner` to `pattern`. The text is compiled first: where the
    /// engine rejects it, its message comes back and nothing changes. A
    /// subscription that the store holds already is reported and not added again.
    pub fn insert(&mut self, owner: u64, pattern: &str) -> (res: Result<(), InsertError>)
        requires
            old(self).wf(),
        ensures
            final(self).wf(),
            reloadable(old(self)@) ==> reloadable(final(self)@),
            match rejection(pattern@) {
                Some(message) => final(self)@ == old(self)@ && (res matches Err(
                    InsertError::InvalidPattern(detail),
                ) && detail@ == message),
                None => inserts(old(self)@, final(self)@, owner, pattern@) && res == (if holds(
                    old(self)@,
                    pattern@,
                    owner,
                ) {
                    Err::<(), InsertError>(InsertError::DuplicateSubscription)
                } else {
                    Ok::<(), InsertError>(())
                }),
            },
    {
        let compiled = compile(pattern);
        let ghost answer = compiled;
        let res = self.insert_compiled(owner, compiled);
        proof {
            if let Ok(regex) = answer {
                assert(regex_source(regex) == pattern@ && final(self)@ == added(
                    old(self)@,
                    Grep(regex, owner),
                ));
            }
        }
        res
    }

    /// The rest of an insertion, once the engine has answered: `compiled` is
    /// the compiled pattern, or the engine's message.
    pub fn insert_compiled(&mut self, owner: u64, compiled: Result<Regex, String>) -> (res: Result<
        (),
        InsertError,
    >)
        requires
            old(self).wf(),
        ensures
            final(self).wf(),
            reloadable(old(self)@) && (compiled matches Ok(regex) ==> rejection(regex_source(regex))
                is None) ==> reloadable(final(self)@),
            match compiled {
                Err(message) => final(self)@ == old(self)@ && res == Err::<(), InsertError>(
                    InsertError::InvalidPattern(message),
                ),
                Ok(regex) => final(self)@ == added(old(self)@, Grep(regex, owner)) && res == (if holds(
                    old(self)@,
                    regex_source(regex),
                    owner,
                ) {
                    Err::<(), InsertError>(InsertError::DuplicateSubscription)
                } else {
                    Ok::<(), InsertError>(())
                }),
            },
    {
        match compiled {
            Err(message) => Err(InsertError::InvalidPattern(message)),
            Ok(regex) => {
                let grep = Grep(regex, owner);
                if self.contains(owner, grep.as_str()) {
                    Err(InsertError::DuplicateSubscription)
                } else {
                    self.items.push(grep);
                    Ok(())
                }
            },
        }
    }

    /// Unsubscribes `owner` from exactly `pattern`, and says whether there was
    /// such a subscription. No other subscription is touched.
    pub fn remove(&mut self, owner: u64, pattern: &str) -> (found: bool)
        requires
            old(self).wf(),
        ensures
            final(self).wf(),
            reloadable(old(self)@) ==> reloadable(final(self)@),
            found == holds(old(self)@, pattern@, owner),
            final(self)@ == removed(old(self)@, pattern@, owner),
    {
        let mut i: usize = 0;
        while i < self.items.len()
            invariant
                i <= self.items.len(),
                self.items@ == old(self).items@,
                distinct(self.items@),
                forall|k: int| 0 <= k < i ==> (#[trigger] self.items@[k]).key() != (pattern@, owner),
            decreases self.items.len() - i,
        {
            if self.items[i].is_for(owner, pattern) {
                proof {
                    let s = self.items@;
                    assert(s[i as int].key() == (pattern@, owner));
                    assert(position(s, pattern@, owner) == i);
                    lemma_remove_keeps_distinct(s, i as int);
                    if reloadable(s) {
                        let r = s.remove(i as int);
                        assert forall|k: int| 0 <= k < r.len() implies rejection(
                            (#[trigger] r[k]).pattern(),
                        ) is None by {
                            let from = if k < i { k } else { k + 1 };
                            assert(r[k] == s[from]);
                        }
                    }
                }
                self.items.remove(i);
                return true;
            }
            i += 1;
        }
        false
    }

    /// Rebuilds a store from its serialised form. Each pattern text is compiled
    /// anew; a pair that occurs again is passed over. The first text that the
    /// engine rejects ends the work, and its message comes back.
    pub fn from_pairs(input: &Vec<(String, u64)>) -> (res: Result<GrepSet, String>)
        ensures
            loads(pair_views(input@), res),
    {
        let ghost all = pair_views(input@);
        let mut store = GrepSet::new();
        let mut i: usize = 0;
        proof {
            assert(pairs(store@) =~= first_occurrences(all.take(0)));
        }
        while i < input.len()
            invariant
                i <= input.len(),
                all == pair_views(input@),
                store.wf(),
                reloadable(store@),
                all_compile(all.take(i as int)),
                pairs(store@) == first_occurrences(all.take(i as int)),
            decreases input.len() - i,
        {
            let ghost before = store@;
            let owner: u64 = input[i].1;
            let outcome = store.insert(owner, input[i].0.as_str());
            proof {
                assert(all[i as int] == (input@[i as int].0@, owner));
                assert(all.take(i + 1).drop_last() =~= all.take(i as int));
                assert(all.take(i + 1).last() == all[i as int]);
                lemma_holds_in_pairs(before, input@[i as int].0@, owner);
            }
            match outcome {
                Err(InsertError::InvalidPattern(message)) => {
                    proof {
                        assert(rejection(all[i as int].0) == Some(message@));
                    }
                    return Err(message);
                },
                _ => {
                    proof {
                        let regex = choose|regex: Regex|
                            (#[trigger] regex_source(regex)) == input@[i as int].0@ && store@
                                == added(before, Grep(regex, owner));
                        if !holds(before, input@[i as int].0@, owner) {
                            assert(store@ == before.push(Grep(regex, owner)));
                            assert(pairs(store@) =~= pairs(before).push(all[i as int]));
                        }
                        assert forall|k: int| 0 <= k < i + 1 implies rejection(
                            (#[trigger] all.take(i + 1)[k]).0,
                        ) is None by {
                            if k < i {
                                assert(all.take(i + 1)[k] == all.take(i as int)[k]);
                            }
                        }
                    }
                },
            }
            i += 1;
        }
        proof {
            assert(all.take(i as int) =~= all);
        }
        Ok(store)
    }

    /// The serialised form of the store: one pair of pattern text and owner id
    /// for each subscription, oldest first.
    pub fn to_pairs(&self) -> (out: Vec<(String, u64)>)
        ensures
            pair_views(out@) == pairs(self@),
    {
        let mut out: Vec<(String, u64)> = Vec::new();
        let mut i: usize = 0;
        while i < self.items.len()
            invariant
                i <= self.items.len(),
                pair_views(out@) == pairs(self.items@.take(i as int)),
            decreases self.items.len() - i,
        {
            let ghost before = out@;
            let pair = self.items[i].to_pair();
            out.push(pair);
            proof {
                let taken = self.items@.take(i as int);
                assert(self.items@.take(i + 1) =~= taken.push(self.items@[i as int]));
                assert(pair_views(before.push(pair)) =~= pair_views(before).push((pair.0@, pair.1)));
                assert(pairs(taken.push(self.items@[i as int])) =~= pairs(taken).push(
                    self.items@[i as int].key(),
                ));
            }
            i += 1;
        }
        proof {
            assert(self.items@.take(i as int) == self.items@);
        }
        out
    }
}

/// Taking one subscription out of a store without repetitions leaves none.
pub proof fn lemma_remove_keeps_distinct(s: Seq<Grep>, at: int)
    requires
        distinct(s),
        0 <= at < s.len(),
    ensures
        distinct(s.remove(at)),
{
    let r = s.remove(at);
    assert forall|i: int, j: int| 0 <= i < j < r.len() implies (#[trigger] r[i]).key() != (
    #[trigger] r[j]).key() by {
        let si = if i < at { i } else { i + 1 };
        let sj = if j < at { j } else { j + 1 };
        assert(r[i] == s[si]);
        assert(r[j] == s[sj]);
    }
}

/// A store holds a subscription exactly when its serialised form lists it.
pub proof fn lemma_holds_in_pairs(s: Seq<Grep>, pattern: Seq<char>, owner: u64)
    ensures
        holds(s, pattern, owner) <==> pairs(s).contains((pattern, owner)),
{
    if holds(s, pattern, owner) {
        let i = position(s, pattern, owner);
        assert(pairs(s)[i] == (pattern, owner));
    }
    if pairs(s).contains((pattern, owner)) {
        let i = choose|i: int| 0 <= i < pairs(s).len() && pairs(s)[i] == (pattern, owner);
        assert(s[i].key() == (pattern, owner));
    }
}

/// An insertion into a store without repetitions leaves it without repetitions.
pub proof fn lemma_added_keeps_distinct(s: Seq<Grep>, grep: Grep)
    requires
        distinct(s),
    ensures
        distinct(added(s, grep)),
{
}

/// Uniqueness: after the same subscription was inserted twice the store holds
/// it once, and the second insertion finds it there and changes nothing.
pub proof fn insert_twice_keeps_one(s: Seq<Grep>, first: Grep, second: Grep)
    requires
        distinct(s),
        first.key() == second.key(),
    ensures
        holds(added(s, first), second.pattern(), second.1),
        added(added(s, first), second) == added(s, first),
        distinct(added(added(s, first), second)),
        forall|i: int, j: int|
            #![trigger added(s, first)[i], added(s, first)[j]]
            0 <= i < added(s, first).len() && 0 <= j < added(s, first).len() && added(s, first)[i].key()
                == first.key() && added(s, first)[j].key() == first.key() ==> i == j,
{
    let once = added(s, first);
    lemma_added_keeps_distinct(s, first);
    if holds(s, first.pattern(), first.1) {
    } else {
        assert(once[s.len() as int].key() == second.key());
    }
    assert forall|i: int, j: int|
        0 <= i < once.len() && 0 <= j < once.len() && once[i].key() == first.key() && once[j].key()
            == first.key() implies i == j by {
        if i < j {
            assert(once[i].key() != once[j].key());
        }
        if j < i {
            assert(once[j].key() != once[i].key());
        }
    }
}

/// Exact removal: a removal takes out the subscription of that owner to that
/// pattern text, and leaves every other subscription where it was, also one of
/// another owner to the same text.
pub proof fn remove_is_exact(s: Seq<Grep>, pattern: Seq<char>, owner: u64, other: Grep)
    requires
        distinct(s),
    ensures
        !holds(removed(s, pattern, owner), pattern, owner),
        removed(s, pattern, owner).len() == s.len() - (if holds(s, pattern, owner) {
            1int
        } else {
            0int
        }),
        other.key() != (pattern, owner) ==> (holds(
            removed(s, pattern, owner),
            other.pattern(),
            other.1,
        ) <==> holds(s, other.pattern(), other.1)),
{
    let r = removed(s, pattern, owner);
    if holds(s, pattern, owner) {
        let p = position(s, pattern, owner);
        assert forall|k: int| 0 <= k < r.len() implies (#[trigger] r[k]).key() != (pattern, owner) by {
            let from = if k < p { k } else { k + 1 };
            assert(r[k] == s[from]);
            if from < p {
                assert(s[from].key() != s[p].key());
            } else {
                assert(s[p].key() != s[from].key());
            }
        }
        if other.key() != (pattern, owner) {
            if holds(s, other.pattern(), other.1) {
                let k = position(s, other.pattern(), other.1);
                let to = if k < p { k } else { k - 1 };
                assert(r[to] == s[k]);
            }
            if holds(r, other.pattern(), other.1) {
                let k = position(r, other.pattern(), other.1);
                let from = if k < p { k } else { k + 1 };
                assert(r[k] == s[from]);
            }
        }
    }
}

/// The serialised form of a store without repetitions has none either.
pub proof fn lemma_pairs_of_distinct(s: Seq<Grep>)
    requires
        distinct(s),
    ensures
        first_occurrences(pairs(s)) == pairs(s),
    decreases s.len(),
{
    if s.len() > 0 {
        let front = s.drop_last();
        lemma_pairs_of_distinct(front);
        assert(pairs(s).drop_last() =~= pairs(front));
        assert(pairs(s).last() == s.last().key());
        lemma_holds_in_pairs(front, s.last().pattern(), s.last().1);
        if holds(front, s.last().pattern(), s.last().1) {
            let i = position(front, s.last().pattern(), s.last().1);
            assert(s[i].key() != s[s.len() - 1].key());
        }
        assert(pairs(front).push(s.last().key()) =~= pairs(s));
    } else {
        assert(pairs(s) =~= Seq::empty());
    }
}

/// Round trip: rebuilding a store from its own serialised form succeeds, where
/// the engine compiles each of its pattern texts anew, and gives a store of the
/// same pairs of pattern text and owner.
pub proof fn reload_restores(s: Seq<Grep>, res: Result<GrepSet, String>)
    requires
        distinct(s),
        reloadable(s),
        loads(pairs(s), res),
    ensures
        res matches Ok(store) && pairs(store@) == pairs(s),
{
    lemma_pairs_of_distinct(s);
    assert(all_compile(pairs(s))) by {
        assert forall|i: int| 0 <= i < pairs(s).len() implies rejection(
            (#[trigger] pairs(s)[i]).0,
        ) is None by {
            assert(pairs(s)[i].0 == s[i].pattern());
        }
    }
}

/// The pairs of a serialised store, each pattern text taken as its characters.
pub open spec fn pair_views(v: Seq<(String, u64)>) -> Seq<(Seq<char>, u64)> {
    v.map_values(|pair: (String, u64)| (pair.0@, pair.1))
}

} // verus!
