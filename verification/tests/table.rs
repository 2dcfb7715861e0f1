use idevice_pair::address::{Address, Endpoint, CONTROL_PORT};
use idevice_pair::table::NameTable;

#[test]
fn new_table_is_empty() {
    let table: NameTable<u32> = NameTable::new();
    assert!(table.is_empty());
    assert!(table.entries().is_empty());
    assert!(table.get(&"a".to_string()).is_none());
    assert!(!table.contains(&"a".to_string()));
}

#[test]
fn insert_adds_a_new_name() {
    let mut table: NameTable<u32> = NameTable::new();
    table.insert("a".to_string(), 1);
    table.insert("b".to_string(), 2);
    assert!(!table.is_empty());
    assert_eq!(table.get(&"a".to_string()), Some(&1));
    assert_eq!(table.get(&"b".to_string()), Some(&2));
    assert_eq!(table.get(&"c".to_string()), None);
    assert!(table.contains(&"b".to_string()));
    assert_eq!(table.entries().len(), 2);
}

#[test]
fn insert_under_a_taken_name_replaces_the_value() {
    let mut table: NameTable<u32> = NameTable::new();
    table.insert("a".to_string(), 1);
    table.insert("b".to_string(), 2);
    table.insert("a".to_string(), 3);
    assert_eq!(table.get(&"a".to_string()), Some(&3));
    assert_eq!(table.get(&"b".to_string()), Some(&2));
    assert_eq!(
        table.entries(),
        &vec![("a".to_string(), 3), ("b".to_string(), 2)]
    );
}

#[test]
fn control_endpoint_is_on_port_62078() {
    assert_eq!(CONTROL_PORT, 62078);
    assert_eq!(
        Address::V6(1).control_endpoint(),
        Endpoint { address: Address::V6(1), port: 62078 }
    );
}
