use rawst::string_map::StringMap;

#[test]
fn insert_keeps_first_position_and_last_value() {
    let mut map: StringMap<u32> = StringMap::new();
    assert!(map.is_empty());
    assert_eq!(map.insert("b".to_string(), 1), None);
    assert_eq!(map.insert("a".to_string(), 2), None);
    assert_eq!(map.insert("b".to_string(), 3), Some(1));
    assert_eq!(map.len(), 2);
    assert_eq!(map.keys(), vec!["b", "a"]);
    assert_eq!(map.get("b"), Some(&3));
    assert_eq!(map.get("a"), Some(&2));
    assert_eq!(map.get("c"), None);
    assert_eq!(map.key_at(0), "b");
    assert_eq!(*map.value_at(0), 3);
    assert_eq!(map.key_at(1), "a");
    assert!(map.contains_key("a"));
    assert!(!map.contains_key("A"));
    assert!(!map.is_empty());
}

#[test]
fn keys_are_compared_by_their_characters() {
    let mut map: StringMap<&str> = StringMap::new();
    map.insert("".to_string(), "empty");
    map.insert("é".to_string(), "accent");
    map.insert("e".to_string(), "plain");
    assert_eq!(map.get(""), Some(&"empty"));
    assert_eq!(map.get("é"), Some(&"accent"));
    assert_eq!(map.get("e"), Some(&"plain"));
    assert_eq!(map.len(), 3);
}
