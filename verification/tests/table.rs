use dnsping::table::{CorrelationTable, CAPACITY};

#[test]
fn entry_is_made_and_taken_once() {
    let mut table = CorrelationTable::new();
    assert_eq!(table.len(), 0);
    assert!(!table.is_pending(5));
    table.record(5, 1000);
    assert!(table.is_pending(5));
    assert_eq!(table.len(), 1);
    assert_eq!(table.take(5), Some(1000));
    assert!(!table.is_pending(5));
    assert_eq!(table.take(5), None);
    assert_eq!(table.len(), 0);
}

#[test]
fn taking_what_is_not_pending_changes_nothing() {
    let mut table = CorrelationTable::new();
    table.record(1, 10);
    table.record(2, 20);
    assert_eq!(table.take(3), None);
    assert_eq!(table.len(), 2);
    assert_eq!(table.take(2), Some(20));
    assert_eq!(table.take(1), Some(10));
}

#[test]
fn reused_identifier_replaces_the_older_entry() {
    let mut table = CorrelationTable::new();
    table.record(9, 100);
    table.record(9, 200);
    assert_eq!(table.len(), 1);
    assert_eq!(table.take(9), Some(200));
    assert_eq!(table.take(9), None);
}

#[test]
fn table_holds_no_more_than_there_are_identifiers() {
    let mut table = CorrelationTable::new();
    for round in 0..2u64 {
        for id in 0..=u16::MAX {
            table.record(id, round * 100_000 + id as u64);
        }
    }
    assert_eq!(table.len(), CAPACITY);
    assert_eq!(table.take(0), Some(100_000));
    assert_eq!(table.take(u16::MAX), Some(100_000 + 65535));
    assert_eq!(table.len(), CAPACITY - 2);
}
