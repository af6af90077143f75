use cnix::caches::{Cachix, CachixCaches};
use cnix::error::NixError;
use cnix::keys::KnownKeys;

fn entries(keys: &KnownKeys) -> Vec<(String, String)> {
    let mut v: Vec<(String, String)> = (0..keys.len())
        .map(|i| keys.entry(i))
        .map(|(name, key)| (name.to_string(), key.to_string()))
        .collect();
    v.sort();
    v
}

fn pairs(parts: &[(&str, &str)]) -> Vec<(String, String)> {
    parts.iter().map(|(a, b)| (a.to_string(), b.to_string())).collect()
}

#[test]
fn keys_are_bound_once() {
    let mut keys = KnownKeys::new();
    assert!(keys.is_empty());
    keys.insert("a", "1");
    keys.insert("b", "2");
    keys.insert("a", "3");
    assert_eq!(keys.len(), 2);
    assert_eq!(keys.entry(0), ("a", "3"));
    assert_eq!(keys.entry(1), ("b", "2"));
    assert!(keys.contains("b"));
    assert!(!keys.contains("c"));
    assert_eq!(keys.values(), ["3", "2"]);
}

#[test]
fn newer_keys_prevail() {
    let mut keys = KnownKeys::new();
    keys.insert("a", "1");
    keys.insert("b", "2");
    let mut more = KnownKeys::new();
    more.insert("b", "20");
    more.insert("c", "30");
    keys.extend(&more);
    assert_eq!(entries(&keys), pairs(&[("a", "1"), ("b", "20"), ("c", "30")]));
}

#[test]
fn a_file_that_cannot_be_read_holds_no_keys() {
    assert!(KnownKeys::load(None).unwrap().is_empty());
}

#[test]
fn keys_are_read_from_json() {
    let keys = KnownKeys::load(Some("{\"a\": \"1\", \"b\": \"x\\ny\", \"a\": \"2\"}")).unwrap();
    assert_eq!(entries(&keys), pairs(&[("a", "2"), ("b", "x\ny")]));
    assert!(KnownKeys::load(Some("{}")).unwrap().is_empty());
}

#[test]
fn other_json_is_an_error() {
    for json in ["", "[]", "null", "{\"a\": 1}", "{\"a\": \"1\"} x", "{\"a\": {}}"] {
        assert_eq!(KnownKeys::load(Some(json)).err(), Some(NixError::InvalidKeys));
    }
    assert_eq!(NixError::InvalidKeys.message(), "Failed to parse JSON");
}

#[test]
fn keys_are_read_back() {
    let mut keys = KnownKeys::new();
    for (name, key) in [
        ("devenv", "devenv.cachix.org-1:w1cLUi8dv3hnoSPGAuibQv+f9TZLr6cv/Hm9XgU50cw="),
        ("quoted \"name\"", "back\\slash"),
        ("", ""),
        ("\u{0}\u{7f}\u{2028}", "d\u{e9}j\u{e0} \u{1f600}\n"),
    ] {
        keys.insert(name, key);
    }
    let json = keys.to_json();
    assert_eq!(entries(&KnownKeys::load(Some(&json)).unwrap()), entries(&keys));
}

#[test]
fn one_key_is_written_as_an_object() {
    let mut keys = KnownKeys::new();
    assert_eq!(keys.to_json(), "{}");
    keys.insert("a", "1");
    assert_eq!(keys.to_json(), "{\"a\":\"1\"}");
}

#[test]
fn copies_hold_the_same() {
    let mut keys = KnownKeys::new();
    keys.insert("a", "1");
    keys.insert("b", "2");
    let caches = CachixCaches {
        caches: Cachix { pull: vec!["a".to_string()], push: None },
        known_keys: keys,
    };
    let mut copy = caches.clone();
    assert_eq!(copy.caches, caches.caches);
    assert_eq!(copy.known_keys.entry(0), ("a", "1"));
    assert_eq!(copy.known_keys.entry(1), ("b", "2"));
    copy.known_keys.insert("a", "3");
    assert_eq!(caches.known_keys.entry(0), ("a", "1"));
}
