use memflow_win32::iter::page_chunks;
use memflow_win32::Address;

#[test]
fn page_chunks_split_at_page_boundaries() {
    let chunks = page_chunks(Address(0x1F00), 0x2200, 0x1000);
    assert_eq!(
        chunks,
        vec![
            (Address(0x1F00), 0x100),
            (Address(0x2000), 0x1000),
            (Address(0x3000), 0x1000),
            (Address(0x4000), 0x100),
        ]
    );
    let total: usize = chunks.iter().map(|c| c.1).sum();
    assert_eq!(total, 0x2200);
}

#[test]
fn page_chunks_empty_range() {
    assert!(page_chunks(Address(0x1234), 0, 0x1000).is_empty());
}

#[test]
fn page_chunks_within_one_page() {
    assert_eq!(
        page_chunks(Address(0x1010), 0x20, 0x1000),
        vec![(Address(0x1010), 0x20)]
    );
}

#[test]
fn address_arithmetic() {
    let a = Address::new(0x1234_5678);
    assert_eq!(a.as_u64(), 0x1234_5678);
    assert!(!a.is_null());
    assert!(Address::null().is_null());
    assert_eq!(a.page_align_down(0x1000), Address(0x1234_5000));
    assert_eq!(a.page_offset(0x1000), 0x678);
    assert_eq!(a.checked_add(8), Some(Address(0x1234_5680)));
    assert_eq!(Address(u64::MAX).checked_add(1), None);
    assert_eq!(Address(u64::MAX).wrapping_add(2), Address(1));
}
