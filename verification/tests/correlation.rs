use lsp_mcp_rs::correlation::CorrelationTable;

#[test]
fn identifiers_start_at_one_and_count_up() {
    let mut table: CorrelationTable<&str> = CorrelationTable::new();
    assert_eq!(table.next_id(), 1);
    assert_eq!(table.allocate("a"), Some(1));
    assert_eq!(table.allocate("b"), Some(2));
    assert_eq!(table.allocate("c"), Some(3));
    assert_eq!(table.next_id(), 4);
    assert_eq!(table.len(), 3);
}

#[test]
fn many_allocations_give_pairwise_distinct_identifiers() {
    let mut table: CorrelationTable<usize> = CorrelationTable::new();
    let mut seen = std::collections::HashSet::new();
    for n in 0..1000 {
        let id = table.allocate(n).unwrap();
        assert!(seen.insert(id));
        if n % 3 == 0 {
            table.complete(id);
        }
    }
    assert_eq!(seen.len(), 1000);
}

#[test]
fn identifiers_are_not_reused_after_completion() {
    let mut table: CorrelationTable<u8> = CorrelationTable::new();
    let first = table.allocate(1).unwrap();
    assert_eq!(table.complete(first), Some(1));
    let second = table.allocate(2).unwrap();
    assert!(second > first);
}

#[test]
fn complete_hands_out_the_slot_once() {
    let mut table: CorrelationTable<String> = CorrelationTable::new();
    let id = table.allocate("slot".to_string()).unwrap();
    assert!(table.is_pending(id));
    assert_eq!(table.complete(id), Some("slot".to_string()));
    assert!(!table.is_pending(id));
    assert_eq!(table.complete(id), None);
    assert_eq!(table.len(), 0);
}

#[test]
fn response_to_unknown_identifier_is_dropped() {
    let mut table: CorrelationTable<u8> = CorrelationTable::new();
    table.allocate(9);
    assert_eq!(table.complete(77), None);
    assert_eq!(table.complete(0), None);
    assert_eq!(table.complete(-1), None);
    assert_eq!(table.len(), 1);
}

#[test]
fn expired_request_leaves_the_table_and_late_response_is_dropped() {
    let mut table: CorrelationTable<u8> = CorrelationTable::new();
    let id = table.allocate(5).unwrap();
    assert!(table.expire(id));
    assert!(!table.is_pending(id));
    assert_eq!(table.len(), 0);
    assert_eq!(table.complete(id), None);
    assert!(!table.expire(id));
}

#[test]
fn responses_out_of_order_reach_their_own_slots() {
    let mut table: CorrelationTable<&str> = CorrelationTable::new();
    let one = table.allocate("first").unwrap();
    let two = table.allocate("second").unwrap();
    assert_eq!((one, two), (1, 2));
    assert_eq!(table.complete(two), Some("second"));
    assert!(table.is_pending(one));
    assert_eq!(table.complete(one), Some("first"));
    assert_eq!(table.len(), 0);
}
