use kproxy::id_pool::{IdPool, NonUnsignedFloat};

#[test]
fn pool_hands_out_least_free_identifier() {
    let mut pool = IdPool::<u8>::new(3);
    assert_eq!(pool.request_id(), Some(0));
    assert_eq!(pool.request_id(), Some(1));
    assert!(pool.return_id(0));
    assert_eq!(pool.request_id(), Some(0));
    assert_eq!(pool.request_id(), Some(2));
    assert_eq!(pool.request_id(), None);
}

#[test]
fn pool_reuses_the_least_of_several_returned_identifiers() {
    let mut pool = IdPool::<usize>::new(8);
    for expected in 0..6usize {
        assert_eq!(pool.request_id(), Some(expected));
    }
    assert!(pool.return_id(4));
    assert!(pool.return_id(1));
    assert!(pool.return_id(3));
    assert_eq!(pool.request_id(), Some(1));
    assert_eq!(pool.request_id(), Some(3));
    assert_eq!(pool.request_id(), Some(4));
    assert_eq!(pool.request_id(), Some(6));
}

#[test]
fn pool_refuses_what_is_not_handed_out() {
    let mut pool = IdPool::<u16>::new(4);
    assert!(!pool.return_id(0));
    assert_eq!(pool.request_id(), Some(0));
    assert!(pool.return_id(0));
    assert!(!pool.return_id(0));
    assert!(!pool.return_id(4));
    assert!(!pool.return_id(1000));
    assert_eq!(pool.request_id(), Some(0));
}

#[test]
fn empty_pool_has_nothing_to_hand_out() {
    let mut pool = IdPool::<u32>::new(0);
    assert_eq!(pool.request_id(), None);
    assert!(!pool.return_id(0));
}

#[test]
fn pool_of_every_value_of_a_byte() {
    let mut pool = IdPool::<u8>::new(u8::MAX);
    for expected in 0..255u16 {
        assert_eq!(pool.request_id(), Some(expected as u8));
    }
    assert_eq!(pool.request_id(), None);
}

#[test]
fn identifier_types_know_their_bounds() {
    assert_eq!(<u8 as NonUnsignedFloat>::min_value(), 0);
    assert_eq!(<u8 as NonUnsignedFloat>::max_value(), 255);
    assert_eq!(<u16 as NonUnsignedFloat>::max_value(), 65535);
    assert_eq!(<u32 as NonUnsignedFloat>::max_value(), u32::MAX);
    assert_eq!(<u64 as NonUnsignedFloat>::max_value(), u64::MAX);
    assert_eq!(<u128 as NonUnsignedFloat>::max_value(), u128::MAX);
    assert_eq!(<usize as NonUnsignedFloat>::min_value(), 0);
    assert_eq!(<usize as NonUnsignedFloat>::max_value(), usize::MAX);
    assert!(3u64.precedes(&4));
    assert!(!4u64.precedes(&4));
    assert_eq!(NonUnsignedFloat::successor(&41u32), 42);
}
