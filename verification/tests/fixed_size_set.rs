use lib::utils::fixed_size_set::FixedSizeSet;

#[test]
fn test_fixed_size_set_add() {
    let mut set: FixedSizeSet<u32, 10> = FixedSizeSet::new();
    for i in 0..10 {
        set.add(i);
        set.add(i);
    }

    assert!(set.data.into_iter().eq((0..10).into_iter()));
}

#[test]
fn test_fixed_size_set_try_remove() {
    let mut set: FixedSizeSet<u32, 10> = FixedSizeSet::new();
    set.add(1);

    assert_eq!(set.try_remove(2), false);
    assert_eq!(set.try_remove(1), true);
    assert_eq!(set.size, 0);
}

#[test]
fn set_remove_keeps_the_order_of_the_rest() {
    let mut set: FixedSizeSet<u16, 5> = FixedSizeSet::new();
    set.add(3);
    set.add(1);
    set.add(4);
    set.add(1);
    assert_eq!(set.as_slice(), &[3, 1, 4]);
    assert!(set.try_remove(1));
    assert_eq!(set.as_slice(), &[3, 4]);
    assert!(!set.try_remove(1));
    set.add(1);
    assert_eq!(set.as_slice(), &[3, 4, 1]);
}
