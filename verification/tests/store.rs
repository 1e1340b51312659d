use grepbot::grep::Grep;
use grepbot::store::{GrepSet, InsertError};

fn keys(store: &GrepSet) -> Vec<(String, u64)> {
    let mut out = store.to_pairs();
    out.sort();
    out
}

#[test]
fn new_store_is_empty() {
    let store = GrepSet::new();
    assert_eq!(store.len(), 0);
    assert!(store.all().is_empty());
    assert!(!store.contains(1, "a"));
}

#[test]
fn insert_adds_a_subscription() {
    let mut store = GrepSet::new();
    assert_eq!(store.insert(42, "error"), Ok(()));
    assert_eq!(store.len(), 1);
    assert!(store.contains(42, "error"));
    assert!(!store.contains(42, "erro"));
    assert!(!store.contains(43, "error"));
    assert_eq!(store.all()[0].as_str(), "error");
    assert_eq!(store.all()[0].owner(), 42);
}

#[test]
fn inserting_the_same_pair_twice_keeps_one() {
    let mut store = GrepSet::new();
    assert_eq!(store.insert(42, "error"), Ok(()));
    assert_eq!(store.insert(42, "error"), Err(InsertError::DuplicateSubscription));
    assert_eq!(store.len(), 1);
    assert_eq!(keys(&store), vec![("error".to_string(), 42)]);
}

#[test]
fn same_text_of_another_owner_is_no_duplicate() {
    let mut store = GrepSet::new();
    assert_eq!(store.insert(42, "error"), Ok(()));
    assert_eq!(store.insert(7, "error"), Ok(()));
    assert_eq!(store.len(), 2);
}

#[test]
fn invalid_pattern_is_rejected_with_the_engine_message() {
    let mut store = GrepSet::new();
    let expected = regex::Regex::new("foo(bar").unwrap_err().to_string();
    assert_eq!(store.insert(42, "foo(bar"), Err(InsertError::InvalidPattern(expected.clone())));
    assert!(!expected.is_empty());
    assert_ne!(expected, "foo(bar");
    assert_eq!(store.len(), 0);
}

#[test]
fn invalid_pattern_wins_over_everything_else() {
    let mut store = GrepSet::new();
    assert_eq!(store.insert(1, "ok"), Ok(()));
    assert!(matches!(store.insert(1, "["), Err(InsertError::InvalidPattern(_))));
    assert_eq!(store.len(), 1);
}

#[test]
fn insert_compiled_takes_the_engine_answer() {
    let mut store = GrepSet::new();
    let outcome = store.insert_compiled(5, Err("no good".to_string()));
    assert_eq!(outcome, Err(InsertError::InvalidPattern("no good".to_string())));
    assert_eq!(store.len(), 0);
    assert_eq!(store.insert_compiled(5, Ok(regex::Regex::new("a+").unwrap())), Ok(()));
    assert_eq!(
        store.insert_compiled(5, Ok(regex::Regex::new("a+").unwrap())),
        Err(InsertError::DuplicateSubscription)
    );
    assert_eq!(store.insert_compiled(6, Ok(regex::Regex::new("a+").unwrap())), Ok(()));
    assert_eq!(keys(&store), vec![("a+".to_string(), 5), ("a+".to_string(), 6)]);
}

#[test]
fn remove_takes_only_the_exact_pair() {
    let mut store = GrepSet::new();
    store.insert(42, "error").unwrap();
    store.insert(7, "error").unwrap();
    store.insert(42, "warn").unwrap();
    assert!(store.remove(42, "error"));
    assert_eq!(keys(&store), vec![("error".to_string(), 7), ("warn".to_string(), 42)]);
    assert!(!store.contains(42, "error"));
    assert!(store.contains(7, "error"));
    assert!(store.contains(42, "warn"));
}

#[test]
fn remove_of_what_is_not_there_changes_nothing() {
    let mut store = GrepSet::new();
    store.insert(42, "error").unwrap();
    assert!(!store.remove(42, "erro"));
    assert!(!store.remove(7, "error"));
    assert_eq!(store.len(), 1);
    assert!(store.remove(42, "error"));
    assert!(!store.remove(42, "error"));
    assert_eq!(store.len(), 0);
}

#[test]
fn remove_keeps_the_order_of_the_rest() {
    let mut store = GrepSet::new();
    store.insert(1, "a").unwrap();
    store.insert(2, "b").unwrap();
    store.insert(3, "c").unwrap();
    assert!(store.remove(2, "b"));
    assert_eq!(store.to_pairs(), vec![("a".to_string(), 1), ("c".to_string(), 3)]);
}

#[test]
fn to_pairs_lists_text_and_owner_oldest_first() {
    let mut store = GrepSet::new();
    store.insert(42, "error").unwrap();
    store.insert(7, "w[a-z]+n").unwrap();
    assert_eq!(
        store.to_pairs(),
        vec![("error".to_string(), 42), ("w[a-z]+n".to_string(), 7)]
    );
}

#[test]
fn round_trip_keeps_the_same_pairs() {
    let mut store = GrepSet::new();
    store.insert(42, "error").unwrap();
    store.insert(7, "warn").unwrap();
    store.insert(7, "error").unwrap();
    store.insert(u64::MAX, "^a.*z$").unwrap();
    let saved = store.to_pairs();
    assert_eq!(saved.len(), 4);
    let loaded = match GrepSet::from_pairs(&saved) {
        Ok(loaded) => loaded,
        Err(message) => panic!("{}", message),
    };
    assert_eq!(loaded.len(), 4);
    assert_eq!(keys(&loaded), keys(&store));
}

#[test]
fn from_pairs_passes_over_repetitions() {
    let input = vec![
        ("a".to_string(), 1),
        ("b".to_string(), 1),
        ("a".to_string(), 1),
        ("a".to_string(), 2),
    ];
    let loaded = GrepSet::from_pairs(&input).ok().unwrap();
    assert_eq!(
        loaded.to_pairs(),
        vec![("a".to_string(), 1), ("b".to_string(), 1), ("a".to_string(), 2)]
    );
}

#[test]
fn from_pairs_reports_the_first_text_that_does_not_compile() {
    let input = vec![("a".to_string(), 1), ("(".to_string(), 2), ("[".to_string(), 3)];
    let expected = regex::Regex::new("(").unwrap_err().to_string();
    match GrepSet::from_pairs(&input) {
        Ok(_) => panic!("a store came back"),
        Err(message) => assert_eq!(message, expected),
    }
}

#[test]
fn from_pairs_of_nothing_is_empty() {
    let loaded = GrepSet::from_pairs(&Vec::new()).ok().unwrap();
    assert_eq!(loaded.len(), 0);
}

#[test]
fn grep_new_compiles_or_reports() {
    let grep = Grep::new("wa+rn", 7).ok().unwrap();
    assert_eq!(grep.as_str(), "wa+rn");
    assert_eq!(grep.owner(), 7);
    assert_eq!(grep.to_pair(), ("wa+rn".to_string(), 7));
    let expected = regex::Regex::new("*").unwrap_err().to_string();
    match Grep::new("*", 7) {
        Ok(_) => panic!("a pattern came back"),
        Err(message) => assert_eq!(message, expected),
    }
}

#[test]
fn grep_matches_anywhere_in_the_text() {
    let grep = Grep::new("warn", 7).ok().unwrap();
    assert!(grep.is_match("system warn detected"));
    assert!(grep.is_match("warn"));
    assert!(grep.is_match("forewarned"));
    assert!(!grep.is_match("system ok"));
    assert!(!grep.is_match(""));
    let anchored = Grep::new("^warn$", 7).ok().unwrap();
    assert!(!anchored.is_match("system warn detected"));
    assert!(anchored.is_match("warn"));
}

#[test]
fn greps_are_equal_by_text_and_owner() {
    let a = Grep::new("a+", 1).ok().unwrap();
    let b = Grep::new("a+", 1).ok().unwrap();
    let c = Grep::new("a+", 2).ok().unwrap();
    let d = Grep::new("aa*", 1).ok().unwrap();
    assert!(a == b);
    assert!(a != c);
    assert!(a != d);
    assert!(a.is_for(1, "a+"));
    assert!(!a.is_for(2, "a+"));
    assert!(!a.is_for(1, "a"));
}

#[test]
fn from_compiled_pairs_the_outcome_with_the_owner() {
    let made = Grep::from_compiled(Ok(regex::Regex::new("x").unwrap()), 9).ok().unwrap();
    assert_eq!(made.as_str(), "x");
    assert_eq!(made.owner(), 9);
    match Grep::from_compiled(Err("bad".to_string()), 9) {
        Ok(_) => panic!("a pattern came back"),
        Err(message) => assert_eq!(message, "bad"),
    }
}
