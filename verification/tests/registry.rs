use glycoprotein::registry::OrderedMap;

#[test]
fn entries_are_walked_in_the_order_of_their_keys() {
    let mut map: OrderedMap<u8> = OrderedMap::new();
    for (key, value) in [("m", 1), ("a", 2), ("z", 3), ("ab", 4)] {
        assert_eq!(map.insert(key.to_string(), value), None);
    }
    assert_eq!(map.insert("m".to_string(), 9), Some(1));
    let walked: Vec<(&str, u8)> =
        (0..map.len()).map(|i| (map.key(i).as_str(), *map.value(i))).collect();
    assert_eq!(walked, vec![("a", 2), ("ab", 4), ("m", 9), ("z", 3)]);
    assert_eq!(map.get("ab"), Some(&4));
    assert_eq!(map.get("b"), None);
    assert!(map.contains_key("z"));
    assert_eq!(map.remove("z"), Some(3));
    assert_eq!(map.remove("z"), None);
    assert_eq!(map.len(), 3);
}
