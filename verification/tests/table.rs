use uip::table::Table;

#[test]
fn insert_get_remove() {
    let mut t: Table<u16, &str> = Table::new();
    t.insert(5, "five");
    t.insert(3, "three");
    t.insert(5, "FIVE");
    assert_eq!(t.len(), 2);
    assert_eq!(t.get(&5), Some(&"FIVE"));
    assert_eq!(t.keys(), vec![5, 3]);
    assert!(t.contains_key(&3));
    assert_eq!(t.remove(&5), Some("FIVE"));
    assert_eq!(t.remove(&5), None);
    assert_eq!(t.keys(), vec![3]);
    t.clear();
    assert_eq!(t.len(), 0);
    assert!(t.get(&3).is_none());
}

#[test]
fn entry_follows_key_order() {
    let mut t: Table<u16, u32> = Table::new();
    t.insert(9, 90);
    t.insert(1, 10);
    assert_eq!(t.entry(0), (&9, &90));
    assert_eq!(t.entry(1), (&1, &10));
}
