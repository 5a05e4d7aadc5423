use restcrab::string_map::{copy_pairs, StringMap};

fn pair(key: &str, value: &str) -> (String, String) {
    (key.to_string(), value.to_string())
}

#[test]
fn insert_replaces_the_value_of_a_key() {
    let mut map = StringMap::new();
    assert_eq!(map.len(), 0);
    map.insert("A".to_string(), "1".to_string());
    map.insert("B".to_string(), "x".to_string());
    map.insert("A".to_string(), "2".to_string());
    assert_eq!(map.len(), 2);
    assert_eq!(map.get("A"), Some(&"2".to_string()));
    assert_eq!(map.get("B"), Some(&"x".to_string()));
    assert_eq!(map.get("C"), None);
    assert!(map.contains_key("A"));
    assert!(!map.contains_key("a"));
    assert_eq!(map.entries(), vec![pair("A", "2"), pair("B", "x")]);
}

#[test]
fn extend_lets_the_other_map_win() {
    let mut left = StringMap::new();
    left.insert("A".to_string(), "1".to_string());
    left.insert("B".to_string(), "1".to_string());
    let mut right = StringMap::new();
    right.insert("B".to_string(), "2".to_string());
    right.insert("C".to_string(), "2".to_string());
    left.extend(&right);
    assert_eq!(left.entries(), vec![pair("A", "1"), pair("B", "2"), pair("C", "2")]);
}

#[test]
fn extend_pairs_lets_the_last_pair_win() {
    let mut map = StringMap::new();
    map.insert("A".to_string(), "1".to_string());
    map.extend_pairs(&vec![pair("A", "2"), pair("B", "1"), pair("A", "3")]);
    assert_eq!(map.entries(), vec![pair("A", "3"), pair("B", "1")]);
}

#[test]
fn clone_keeps_entries_and_order() {
    let mut map = StringMap::new();
    map.insert("k".to_string(), "v".to_string());
    map.insert("j".to_string(), "w".to_string());
    assert_eq!(map.clone().entries(), map.entries());
}

#[test]
fn copy_pairs_copies() {
    let pairs = vec![pair("A", "1"), pair("A", "2")];
    assert_eq!(copy_pairs(&pairs), pairs);
}
