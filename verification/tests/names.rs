use mqtt_client::names::NameMap;

fn name(text: &str) -> String {
    String::from(text)
}

#[test]
fn new_map_is_empty() {
    let map: NameMap<u8> = NameMap::new();
    assert_eq!(map.len(), 0);
    assert!(!map.contains_key(&name("a")));
    assert_eq!(map.get(&name("a")), None);
    assert_eq!(map.position(&name("a")), None);
}

#[test]
fn insert_of_a_new_name_goes_to_the_end() {
    let mut map: NameMap<u8> = NameMap::new();
    assert_eq!(map.insert(name("a"), 1), None);
    assert_eq!(map.insert(name("b"), 2), None);
    assert_eq!(map.len(), 2);
    assert_eq!(map.name_at(0).as_str(), "a");
    assert_eq!(map.name_at(1).as_str(), "b");
    assert_eq!(*map.value_at(0), 1);
    assert_eq!(*map.value_at(1), 2);
    assert_eq!(map.position(&name("b")), Some(1));
}

#[test]
fn insert_of_a_known_name_keeps_its_place() {
    let mut map: NameMap<u8> = NameMap::new();
    map.insert(name("a"), 1);
    map.insert(name("b"), 2);
    assert_eq!(map.insert(name("a"), 3), Some(1));
    assert_eq!(map.len(), 2);
    assert_eq!(map.name_at(0).as_str(), "a");
    assert_eq!(map.get(&name("a")), Some(&3));
    assert_eq!(map.get(&name("b")), Some(&2));
}

#[test]
fn remove_takes_one_name_out() {
    let mut map: NameMap<u8> = NameMap::new();
    map.insert(name("a"), 1);
    map.insert(name("b"), 2);
    map.insert(name("c"), 3);
    assert_eq!(map.remove(&name("b")), Some(2));
    assert_eq!(map.remove(&name("b")), None);
    assert_eq!(map.len(), 2);
    assert_eq!(map.name_at(0).as_str(), "a");
    assert_eq!(map.name_at(1).as_str(), "c");
    assert!(!map.contains_key(&name("b")));
    assert!(map.contains_key(&name("c")));
}

#[test]
fn clear_takes_every_name_out() {
    let mut map: NameMap<u8> = NameMap::new();
    map.insert(name("a"), 1);
    map.insert(name("b"), 2);
    map.clear();
    assert_eq!(map.len(), 0);
    assert!(!map.contains_key(&name("a")));
}
