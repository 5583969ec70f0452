use bakatui::str_map::StrMap;

#[test]
fn insert_then_get_gives_the_value() {
    let mut m: StrMap<u64> = StrMap::new();
    assert_eq!(m.len(), 0);
    m.insert("1.".to_string(), 10);
    m.insert("2.".to_string(), 20);
    assert_eq!(m.get(&"1.".to_string()), Some(&10));
    assert_eq!(m.get(&"2.".to_string()), Some(&20));
    assert_eq!(m.get(&"3.".to_string()), None);
    assert_eq!(m.len(), 2);
}

#[test]
fn insert_replaces_an_existing_key() {
    let mut m: StrMap<u64> = StrMap::new();
    m.insert("k".to_string(), 1);
    m.insert("k".to_string(), 2);
    assert_eq!(m.len(), 1);
    assert_eq!(m.get(&"k".to_string()), Some(&2));
    let (k, v) = m.entry(0);
    assert_eq!(k, "k");
    assert_eq!(*v, 2);
}
