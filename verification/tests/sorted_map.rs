//! Maps that keep their keys in order.

use sqlserver_adapter::sorted_map::SortedMap;

fn keys(map: &SortedMap<i32>) -> Vec<&str> {
    map.entries().iter().map(|(key, _)| key.as_str()).collect()
}

#[test]
fn keys_are_ordered_by_their_bytes() {
    let mut map = SortedMap::new();
    for (i, key) in ["b", "", "a\u{e9}", "Z", "ab", "a"].iter().enumerate() {
        map.insert(key.to_string(), i as i32);
    }
    assert_eq!(keys(&map), vec!["", "Z", "a", "ab", "a\u{e9}", "b"]);
    assert_eq!(map.get("Z"), Some(&3));
    assert_eq!(map.get("z"), None);
}

#[test]
fn a_key_has_one_value() {
    let mut map = SortedMap::new();
    map.insert("k".to_string(), 1);
    map.insert("k".to_string(), 2);
    assert_eq!(keys(&map), vec!["k"]);
    assert_eq!(map.get("k"), Some(&2));
}

#[test]
fn removing_takes_out_one_entry() {
    let mut map = SortedMap::new();
    for key in ["a", "b", "c"] {
        map.insert(key.to_string(), 0);
    }
    assert_eq!(map.remove("b"), Some(0));
    assert_eq!(map.remove("b"), None);
    assert_eq!(keys(&map), vec!["a", "c"]);
}
