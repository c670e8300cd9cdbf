use evloop::IntMap;

#[test]
fn new_map_is_empty() {
    let mut map: IntMap<&str> = IntMap::new();
    assert_eq!(map.take(0), None);
    assert_eq!(map.take(7), None);
    assert_eq!(map.take(usize::MAX), None);
}

#[test]
fn stored_value_is_taken_once() {
    let mut map = IntMap::new();
    map.insert(5, "five");
    assert_eq!(map.take(5), Some("five"));
    assert_eq!(map.take(5), None);
}

#[test]
fn slots_below_a_stored_value_stay_empty() {
    let mut map = IntMap::new();
    map.insert(3, 'c');
    assert_eq!(map.take(0), None);
    assert_eq!(map.take(2), None);
    assert_eq!(map.take(4), None);
    assert_eq!(map.take(3), Some('c'));
}

#[test]
fn later_value_replaces_earlier_one() {
    let mut map = IntMap::new();
    map.insert(2, 10);
    map.insert(2, 20);
    assert_eq!(map.take(2), Some(20));
    assert_eq!(map.take(2), None);
}

#[test]
fn other_keys_are_left_alone() {
    let mut map = IntMap::new();
    map.insert(9, "nine");
    map.insert(1, "one");
    assert_eq!(map.take(1), Some("one"));
    assert_eq!(map.take(9), Some("nine"));
}

#[test]
fn last_store_wins_over_any_number_of_stores() {
    let mut map = IntMap::new();
    for value in 0..5 {
        map.insert(3, value);
    }
    assert_eq!(map.take(3), Some(4));
    assert_eq!(map.take(3), None);
}

#[test]
fn stores_under_different_keys_commute() {
    let mut forth = IntMap::new();
    forth.insert(1, 'a');
    forth.insert(6, 'b');
    let mut back = IntMap::new();
    back.insert(6, 'b');
    back.insert(1, 'a');
    for index in 0..10 {
        assert_eq!(forth.take(index), back.take(index));
    }
}
