use apcore_mcp_server::table::Table;

#[test]
fn tables_keep_the_last_value_under_each_text() {
    let mut table: Table<u32> = Table::new();
    table.insert("a", 1);
    table.insert("b", 2);
    table.insert("a", 3);
    assert_eq!(table.len(), 2);
    assert_eq!(table.get("a"), Some(&3));
    assert_eq!(table.get("b"), Some(&2));
    assert_eq!(table.get("c"), None);
}

#[test]
fn what_is_removed_from_a_table_is_gone() {
    let mut table: Table<u32> = Table::new();
    table.insert("a", 1);
    table.insert("b", 2);
    table.remove("a");
    table.remove("c");
    assert_eq!(table.len(), 1);
    assert!(!table.contains_key("a"));
    assert!(table.contains_key("b"));
    table.clear();
    assert_eq!(table.len(), 0);
    assert!(!table.contains_key("b"));
}
