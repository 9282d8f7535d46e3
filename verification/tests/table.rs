use iap_auth::table::Table;

#[test]
fn a_new_table_is_empty() {
    let table: Table<u32> = Table::new();
    assert_eq!(table.get(&"a".to_string()), None);
}

#[test]
fn insert_then_get() {
    let mut table: Table<u32> = Table::new();
    table.insert("a".to_string(), 1);
    table.insert("b".to_string(), 2);
    assert_eq!(table.get(&"a".to_string()), Some(&1));
    assert_eq!(table.get(&"b".to_string()), Some(&2));
    assert_eq!(table.get(&"c".to_string()), None);
}

#[test]
fn insert_replaces_what_was_there() {
    let mut table: Table<u32> = Table::new();
    table.insert("a".to_string(), 1);
    table.insert("b".to_string(), 2);
    table.insert("a".to_string(), 3);
    assert_eq!(table.get(&"a".to_string()), Some(&3));
    assert_eq!(table.get(&"b".to_string()), Some(&2));
}

#[test]
fn clear_removes_everything() {
    let mut table: Table<u32> = Table::new();
    table.insert("a".to_string(), 1);
    table.clear();
    assert_eq!(table.get(&"a".to_string()), None);
}
