//! One subscription: a compiled pattern and the user who asked for it.

use crate::pattern::{accepts, compile, regex_accepts, regex_source, rejection, source};
use regex::Regex;
use vstd::prelude::*;
use vstd::std_specs::cmp::PartialEqSpecImpl;

verus! {

/// A compiled pattern and its owner's user id. Two subscriptions are the same
/// when they have the same pattern text and the same owner: the compiled form is
/// carried along and never compared.
pub struct Grep(pub Regex, pub u64);

impl Grep {
    /// The pattern text that this subscription was compiled from.
    pub open spec fn pattern(self) -> Seq<char> {
        regex_source(self.0)
    }

    /// The identity of a subscription: its pattern text and its owner.
    pub open spec fn key(self) -> (Seq<char>, u64) {
        (regex_source(self.0), self.1)
    }

    /// Whether the pattern finds a match anywhere in `text`.
    pub open spec fn matches(self, text: Seq<char>) -> bool {
        regex_accepts(self.0, text)
    }

    /// Compiles `pattern` for `owner`, or hands back the engine's message.
    pub fn new(pattern: &str, owner: u64) -> (res: Result<Grep, String>)
        ensures
            match res {
                Ok(grep) => rejection(pattern@) is None && grep.key() == (pattern@, owner),
                Err(message) => rejection(pattern@) == Some(message@),
            },
    {
        Grep::from_compiled(compile(pattern), owner)
    }

    /// Pairs the outcome of a compilation with an owner.
    pub fn from_compiled(compiled: Result<Regex, String>, owner: u64) -> (res: Result<Grep, String>)
        ensures
            match compiled {
                Ok(regex) => res == Ok::<Grep, String>(Grep(regex, owner)),
                Err(message) => res == Err::<Grep, String>(message),
            },
    {
        match compiled {
            Ok(regex) => Ok(Grep(regex, owner)),
            Err(message) => Err(message),
        }
    }

    /// The pattern text.
    pub fn as_str(&self) -> (text: &str)
        ensures
            text@ == self.pattern(),
    {
        source(&self.0)
    }

    /// The owner's user id.
    pub fn owner(&self) -> (id: u64)
        ensures
            id == self.1,
    {
        self.1
    }

    /// Whether the pattern finds a match anywhere in `text`.
    pub fn is_match(&self, text: &str) -> (found: bool)
        ensures
            found == self.matches(text@),
    {
        accepts(&self.0, text)
    }

    /// Whether this is the subscription of `owner` to exactly `pattern`.
    pub fn is_for(&self, owner: u64, pattern: &str) -> (same: bool)
        ensures
            same == (self.key() == (pattern@, owner)),
    {
        self.1 == owner && source(&self.0).eq(pattern)
    }

    /// The serialised form: the pattern text and the owner's id.
    pub fn to_pair(&self) -> (pair: (String, u64))
        ensures
            (pair.0@, pair.1) == self.key(),
    {
        (String::from_str(source(&self.0)), self.1)
    }
}

impl PartialEq for Grep {
    fn eq(&self, other: &Grep) -> (same: bool) {
        self.1 == other.1 && source(&self.0).eq(source(&other.0))
    }
}

impl PartialEqSpecImpl for Grep {
    open spec fn obeys_eq_spec() -> bool {
        true
    }

    open spec fn eq_spec(&self, other: &Grep) -> bool {
        self.key() == other.key()
    }
}

impl Eq for Grep {}

} // verus!
