use lib::utils::static_allocator::{Layout, StaticAllocator};

struct TestType {
    _x: u32,
}

#[test]
fn test_alloc_alignment() {
    let buffer = [0u8; 100];
    let mut allocator = StaticAllocator::new(buffer.as_ptr() as usize, 100);
    let aligns = 5;
    for a in 1..aligns {
        let align = 1 << a;
        let ptr = allocator.allocate(Layout { size: 1, align });
        // verify the address is aligned
        assert_eq!(ptr & (align - 1), 0);
    }
}

#[test]
fn test_create_layout() {
    let _ = Layout::from_type::<TestType>();
}

#[test]
fn layouts_carry_size_and_alignment() {
    let layout = Layout::from_type::<TestType>();
    assert_eq!(layout.size, 4);
    assert_eq!(layout.align, 4);
    let layout = Layout::new(10);
    assert_eq!(layout.size, 10);
    assert_eq!(layout.align, core::mem::size_of::<usize>());
    let layout = Layout::with_align(3, 16);
    assert_eq!((layout.size, layout.align), (3, 16));
}

#[test]
fn allocations_follow_each_other_at_aligned_addresses() {
    let mut allocator = StaticAllocator::new(0x1001, 64);
    assert_eq!(allocator.allocate(Layout { size: 3, align: 1 }), 0x1001);
    assert_eq!(allocator.allocate(Layout { size: 2, align: 8 }), 0x1008);
    assert_eq!(allocator.allocate(Layout { size: 1, align: 2 }), 0x100A);
    assert_eq!(allocator.allocate(Layout { size: 1, align: 1 }), 0x100B);
}

#[test]
fn powers_of_two_are_recognised_by_their_lowest_bit() {
    assert!(Layout::is_2_power(1));
    assert!(Layout::is_2_power(2));
    assert!(Layout::is_2_power(64));
    assert!(Layout::is_2_power(1 << 40));
    assert!(!Layout::is_2_power(3));
    assert!(!Layout::is_2_power(12));
    assert!(!Layout::is_2_power(usize::MAX));
}
