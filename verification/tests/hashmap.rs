use fallible_collections::hashmap::reserve_request;
use fallible_collections::{TableReserveError, TryHashMap};

#[test]
fn tryhashmap_oom() {
    match TryHashMap::<char, char>::default().reserve(core::usize::MAX) {
        Ok(_) => panic!("it should be OOM"),
        _ => (),
    }
}

#[test]
fn map_keeps_what_was_inserted() {
    let mut m: TryHashMap<String, u32> = TryHashMap::default();
    assert_eq!(m.get("a"), None);
    assert_eq!(m.insert(String::from("a"), 1), Ok(None));
    assert_eq!(m.insert(String::from("b"), 2), Ok(None));
    assert_eq!(m.insert(String::from("a"), 3), Ok(Some(1)));
    assert_eq!(m.get("a"), Some(&3));
    assert_eq!(m.get("b"), Some(&2));
    assert_eq!(m.get("c"), None);
}

#[test]
fn map_without_room_hands_the_error_on() {
    let mut m: TryHashMap<u8, u8> = TryHashMap::default();
    let e = m.reserve(usize::MAX).unwrap_err();
    assert_eq!(e, TableReserveError::CapacityOverflow);
    assert_eq!(m.insert_reserved(1, 2, Err(e)), Err(e));
    let refused = TableReserveError::AllocError { size: 64, align: 8 };
    assert_eq!(m.insert_reserved(1, 2, Err(refused)), Err(refused));
    assert_eq!(m.get(&1), None);
    assert_eq!(m.insert_reserved(1, 2, Ok(())), Ok(None));
    assert_eq!(m.get(&1), Some(&2));
}

#[test]
fn first_insertion_asks_for_four_slots() {
    assert_eq!(reserve_request(0), 4);
    assert_eq!(reserve_request(1), 1);
    assert_eq!(reserve_request(usize::MAX), 1);
}

#[test]
fn map_has_room_for_no_entry() {
    let mut m: TryHashMap<u8, u8> = TryHashMap::default();
    assert_eq!(m.reserve(0), Ok(()));
    assert_eq!(m.insert(1, 2), Ok(None));
    assert_eq!(m.reserve(0), Ok(()));
    assert_eq!(m.get(&1), Some(&2));
}
