//! The ordered map with text keys.

use fuin::string_map::{order_of, same_text, KeyOrder, StringMap};

fn sample() -> StringMap<String> {
    let mut map = StringMap::new();
    map.insert("b".to_owned(), "second".to_owned());
    map.insert("a".to_owned(), "first".to_owned());
    map.insert("c".to_owned(), "third".to_owned());
    map
}

#[test]
fn keys_come_in_order() {
    let map = sample();
    assert_eq!(map.len(), 3);
    let keys: Vec<&str> = (0..map.len()).map(|i| map.key_at(i).as_str()).collect();
    assert_eq!(keys, ["a", "b", "c"]);
    let values: Vec<&str> = (0..map.len()).map(|i| map.value_at(i).as_str()).collect();
    assert_eq!(values, ["first", "second", "third"]);
}

#[test]
fn keys_come_in_the_order_of_a_btree_map() {
    let texts = ["", "a", "B", "ab", "a\u{0}", "\u{fc}", "\u{1f600}", "\u{ffff}", "z", "zz"];
    let mut map = StringMap::new();
    let mut reference = std::collections::BTreeMap::new();
    for text in texts {
        map.insert(text.to_owned(), text.to_owned());
        reference.insert(text.to_owned(), text.to_owned());
    }
    let keys: Vec<String> = (0..map.len()).map(|i| map.key_at(i).clone()).collect();
    let expected: Vec<String> = reference.keys().cloned().collect();
    assert_eq!(keys, expected);
}

#[test]
fn lookup_finds_what_was_inserted_last() {
    let mut map = sample();
    assert_eq!(map.get("a").unwrap(), "first");
    assert!(map.get("d").is_none());
    assert!(map.get("").is_none());
    map.insert("a".to_owned(), "changed".to_owned());
    assert_eq!(map.len(), 3);
    assert_eq!(map.get("a").unwrap(), "changed");
    assert_eq!(map.get("b").unwrap(), "second");
}

#[test]
fn new_map_is_empty() {
    let map: StringMap<String> = StringMap::new();
    assert!(map.is_empty());
    assert_eq!(map.len(), 0);
    assert!(!sample().is_empty());
}

#[test]
fn order_is_that_of_the_bytes() {
    assert_eq!(order_of("a", "b"), KeyOrder::Before);
    assert_eq!(order_of("b", "a"), KeyOrder::After);
    assert_eq!(order_of("a", "ab"), KeyOrder::Before);
    assert_eq!(order_of("ab", "a"), KeyOrder::After);
    assert_eq!(order_of("", ""), KeyOrder::Same);
    assert_eq!(order_of("Z", "a"), KeyOrder::Before);
    assert_eq!(order_of("\u{ffff}", "\u{10000}"), KeyOrder::Before);
    assert!(same_text("text", "text"));
    assert!(!same_text("text", "texts"));
}

#[test]
fn clone_has_the_same_entries() {
    let map = sample();
    let mut copy = map.clone();
    copy.insert("a".to_owned(), "changed".to_owned());
    assert_eq!(copy.len(), 3);
    assert_eq!(copy.get("b").unwrap(), "second");
    assert_eq!(map.get("a").unwrap(), "first");
}
