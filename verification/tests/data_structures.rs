use kproxy::data_structures::{MultiMap, Ref};

#[test]
fn shared_reference_holds_its_value() {
    let mut shared = Ref::new(vec![1u8, 2, 3]);
    assert_eq!(shared.get(), &vec![1u8, 2, 3]);
    shared.get_mut().push(4);
    assert_eq!(shared.get(), &vec![1u8, 2, 3, 4]);
    assert_eq!(shared.into_inner(), vec![1u8, 2, 3, 4]);
}

#[test]
fn new_map_is_empty() {
    let mut map: MultiMap<usize, u32> = MultiMap::new();
    assert_eq!(map.len(), 0);
    assert!(!map.contains_key(&1));
    assert_eq!(map.get(&1), None);
    assert!(map.get_mut(&1).is_none());
    assert_eq!(map.remove(&1), None);
}

#[test]
fn insert_binds_a_key_to_its_own_value() {
    let mut map: MultiMap<usize, u32> = MultiMap::new();
    map.insert(1, 10);
    map.insert(2, 20);
    assert_eq!(map.len(), 2);
    assert_eq!(map.get(&1), Some(&10));
    assert_eq!(map.get(&2), Some(&20));
    map.insert(1, 11);
    assert_eq!(map.len(), 2);
    assert_eq!(map.get(&1), Some(&11));
    assert_eq!(map.get(&2), Some(&20));
}

#[test]
fn two_keys_find_one_value() {
    let mut map: MultiMap<usize, Ref<Vec<u8>>> = MultiMap::new();
    map.insert(1, Ref::new(vec![]));
    assert!(map.alias(2, &1));
    map.insert(3, Ref::new(vec![9]));
    map.get_mut(&2).unwrap().get_mut().push(7);
    assert_eq!(map.get(&1).unwrap().get(), &vec![7u8]);
    map.get_mut(&1).unwrap().get_mut().push(8);
    assert_eq!(map.get(&2).unwrap().get(), &vec![7u8, 8]);
    assert_eq!(map.get(&3).unwrap().get(), &vec![9u8]);
    assert_eq!(map.len(), 3);
}

#[test]
fn alias_of_a_missing_key_changes_nothing() {
    let mut map: MultiMap<usize, u32> = MultiMap::new();
    map.insert(1, 10);
    assert!(!map.alias(2, &5));
    assert_eq!(map.len(), 1);
    assert!(!map.contains_key(&2));
    assert!(map.alias(1, &1));
    assert_eq!(map.get(&1), Some(&10));
}

#[test]
fn alias_rebinds_a_key_that_was_bound() {
    let mut map: MultiMap<usize, u32> = MultiMap::new();
    map.insert(1, 10);
    map.insert(2, 20);
    assert!(map.alias(2, &1));
    assert_eq!(map.get(&2), Some(&10));
    *map.get_mut(&2).unwrap() = 12;
    assert_eq!(map.get(&1), Some(&12));
    assert_eq!(map.len(), 2);
}

#[test]
fn value_leaves_with_its_last_key() {
    let mut map: MultiMap<usize, u32> = MultiMap::new();
    map.insert(1, 10);
    assert!(map.alias(2, &1));
    assert_eq!(map.remove(&1), None);
    assert_eq!(map.get(&2), Some(&10));
    assert!(!map.contains_key(&1));
    assert_eq!(map.remove(&2), Some(10));
    assert_eq!(map.len(), 0);
    map.insert(7, 70);
    assert_eq!(map.get(&7), Some(&70));
}

#[test]
fn slots_are_used_again() {
    let mut map: MultiMap<usize, u32> = MultiMap::new();
    for round in 0..50usize {
        map.insert(round, round as u32);
        assert!(map.alias(round + 1000, &round));
        if round > 0 {
            assert_eq!(map.remove(&(round - 1)), None);
            assert_eq!(map.remove(&(round - 1 + 1000)), Some((round - 1) as u32));
        }
        assert_eq!(map.len(), 2);
        assert_eq!(map.get(&(round + 1000)), Some(&(round as u32)));
    }
}
