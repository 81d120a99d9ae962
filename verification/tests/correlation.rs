use mqtt_client::correlation::CorrelationTable;

#[test]
fn subscribe_identifiers_count_up_with_odd_keys() {
    let mut table: CorrelationTable<u32> = CorrelationTable::new();
    assert_eq!(table.reserve_subscribe(), (0, 1));
    assert_eq!(table.reserve_subscribe(), (1, 3));
    assert_eq!(table.reserve_subscribe(), (2, 5));
}

#[test]
fn unsubscribe_identifiers_count_up_with_even_keys() {
    let mut table: CorrelationTable<u32> = CorrelationTable::new();
    assert_eq!(table.reserve_unsubscribe(), (0, 0));
    assert_eq!(table.reserve_unsubscribe(), (1, 2));
    assert_eq!(table.reserve_unsubscribe(), (2, 4));
}

#[test]
fn the_two_counters_are_independent() {
    let mut table: CorrelationTable<u32> = CorrelationTable::new();
    assert_eq!(table.reserve_subscribe(), (0, 1));
    assert_eq!(table.reserve_subscribe(), (1, 3));
    assert_eq!(table.reserve_unsubscribe(), (0, 0));
    assert_eq!(table.reserve_subscribe(), (2, 5));
    assert_eq!(table.reserve_unsubscribe(), (1, 2));
}

#[test]
fn subscribe_identifier_wraps_after_65536_calls() {
    let mut table: CorrelationTable<u32> = CorrelationTable::new();
    let mut previous = table.reserve_subscribe();
    assert_eq!(previous, (0, 1));
    for _ in 1..65536u32 {
        let next = table.reserve_subscribe();
        assert_ne!(next.0, previous.0);
        assert_eq!(next.0, previous.0 + 1);
        assert_eq!(next.1, 2 * next.0 as usize + 1);
        previous = next;
    }
    assert_eq!(previous, (65535, 131071));
    assert_eq!(table.reserve_subscribe(), (0, 1));
}

#[test]
fn unsubscribe_identifier_wraps_after_65536_calls() {
    let mut table: CorrelationTable<u32> = CorrelationTable::new();
    for expected in 0..=65535u16 {
        assert_eq!(table.reserve_unsubscribe(), (expected, 2 * expected as usize));
    }
    assert_eq!(table.reserve_unsubscribe(), (0, 0));
}

#[test]
fn resolve_gives_the_callback_back_once() {
    let mut table: CorrelationTable<u32> = CorrelationTable::new();
    table.store(7, Some(70));
    table.store(8, Some(80));
    assert_eq!(table.resolve(7), Some(70));
    assert_eq!(table.resolve(7), None);
    assert_eq!(table.resolve(8), Some(80));
}

#[test]
fn resolve_of_an_unknown_key_gives_nothing() {
    let mut table: CorrelationTable<u32> = CorrelationTable::new();
    assert_eq!(table.resolve(1), None);
    table.store(1, Some(5));
    assert_eq!(table.resolve(3), None);
    assert_eq!(table.resolve(1), Some(5));
}

#[test]
fn store_without_callback_resolves_to_nothing() {
    let mut table: CorrelationTable<u32> = CorrelationTable::new();
    table.store(1, None);
    assert_eq!(table.resolve(1), None);
}

#[test]
fn store_overwrites_what_waited() {
    let mut table: CorrelationTable<u32> = CorrelationTable::new();
    table.store(1, Some(5));
    table.store(1, Some(6));
    assert_eq!(table.resolve(1), Some(6));
    assert_eq!(table.resolve(1), None);
}

#[test]
fn clear_forgets_callbacks_and_counters() {
    let mut table: CorrelationTable<u32> = CorrelationTable::new();
    table.reserve_subscribe();
    table.reserve_unsubscribe();
    table.store(1, Some(5));
    table.clear();
    assert_eq!(table.resolve(1), None);
    assert_eq!(table.reserve_subscribe(), (0, 1));
    assert_eq!(table.reserve_unsubscribe(), (0, 0));
}
