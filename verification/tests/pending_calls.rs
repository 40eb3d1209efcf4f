use s2a4c::pending::PendingCalls;

#[test]
fn new_table_holds_no_call() {
    let mut table: PendingCalls<String> = PendingCalls::new();
    assert_eq!(table.remove_and_take(0), None);
    assert_eq!(table.remove_and_take(u128::MAX), None);
}

#[test]
fn insert_then_take_returns_the_reply() {
    let mut table: PendingCalls<String> = PendingCalls::new();
    assert_eq!(table.insert(7, "a".to_string()), Ok(()));
    assert_eq!(table.remove_and_take(7), Some("a".to_string()));
    assert_eq!(table.remove_and_take(7), None);
}

#[test]
fn insert_under_a_pending_identifier_is_a_collision() {
    let mut table: PendingCalls<String> = PendingCalls::new();
    assert_eq!(table.insert(7, "first".to_string()), Ok(()));
    assert_eq!(table.insert(7, "second".to_string()), Err("second".to_string()));
    assert_eq!(table.remove_and_take(7), Some("first".to_string()));
}

#[test]
fn identifier_is_free_again_after_take() {
    let mut table: PendingCalls<u32> = PendingCalls::new();
    assert_eq!(table.insert(1, 10), Ok(()));
    assert_eq!(table.remove_and_take(1), Some(10));
    assert_eq!(table.insert(1, 11), Ok(()));
    assert_eq!(table.remove_and_take(1), Some(11));
}

#[test]
fn each_identifier_keeps_its_own_reply() {
    let mut table: PendingCalls<u32> = PendingCalls::new();
    for id in 0..50u128 {
        assert_eq!(table.insert(id, 1000 + id as u32), Ok(()));
    }
    for id in (0..50u128).rev() {
        assert_eq!(table.remove_and_take(id), Some(1000 + id as u32));
    }
    for id in 0..50u128 {
        assert_eq!(table.remove_and_take(id), None);
    }
}

#[test]
fn taking_one_call_leaves_the_others() {
    let mut table: PendingCalls<&'static str> = PendingCalls::new();
    assert_eq!(table.insert(1, "one"), Ok(()));
    assert_eq!(table.insert(2, "two"), Ok(()));
    assert_eq!(table.insert(3, "three"), Ok(()));
    assert_eq!(table.remove_and_take(2), Some("two"));
    assert_eq!(table.insert(4, "four"), Ok(()));
    assert_eq!(table.insert(2, "two again"), Ok(()));
    assert_eq!(table.remove_and_take(1), Some("one"));
    assert_eq!(table.remove_and_take(3), Some("three"));
    assert_eq!(table.remove_and_take(4), Some("four"));
    assert_eq!(table.remove_and_take(2), Some("two again"));
}

#[test]
fn slots_are_reused_across_many_rounds() {
    let mut table: PendingCalls<u64> = PendingCalls::new();
    for round in 0..200u64 {
        let a = u128::from(round) * 2;
        let b = a + 1;
        assert_eq!(table.insert(a, round), Ok(()));
        assert_eq!(table.insert(b, round + 1), Ok(()));
        assert_eq!(table.insert(a, 0), Err(0));
        assert_eq!(table.remove_and_take(b), Some(round + 1));
        assert_eq!(table.remove_and_take(a), Some(round));
    }
}

#[test]
fn extreme_identifiers_are_ordinary_keys() {
    let mut table: PendingCalls<u8> = PendingCalls::new();
    assert_eq!(table.insert(0, 1), Ok(()));
    assert_eq!(table.insert(u128::MAX, 2), Ok(()));
    assert_eq!(table.remove_and_take(u128::MAX), Some(2));
    assert_eq!(table.remove_and_take(0), Some(1));
}
