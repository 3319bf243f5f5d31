use memflow_win32::{
    Address, Architecture, Error, FaultKind, PhysicalImage, Pointer32, ReadFailure, VirtualDma,
};

#[test]
fn pointer_bounds() {
    assert_eq!(
        Pointer32::<u8>::try_from(0x1_0000_0000u64).err(),
        Some(Error::OutOfBounds)
    );
    assert_eq!(Pointer32::<u8>::try_from(0xFFFF_FFFFu64).unwrap().as_u32(), 0xFFFF_FFFF);
    assert_eq!(Pointer32::<[u32]>::from(0x1000).at(2).as_u32(), 0x1008);
}

#[test]
fn pointer_try_from_address() {
    assert!(Pointer32::<u8>::try_from_address(Address(0x1_0000_0000)).is_err());
    assert_eq!(
        Pointer32::<u8>::try_from_address(Address(0x1234)).unwrap().as_u64(),
        0x1234
    );
}

#[test]
fn pointer_arithmetic_scales_by_size() {
    let p = Pointer32::<u64>::from(0x1000);
    assert_eq!((p + 3).as_u32(), 0x1018);
    assert_eq!(((p + 3) - 3).as_u32(), 0x1000);
    assert_eq!(p.add(2).sub(2).as_u32(), 0x1000);
}

#[test]
fn pointer_arithmetic_saturates() {
    let p = Pointer32::<u32>::from(0xFFFF_FFF0);
    assert_eq!((p + 8).as_u32(), 0xFFFF_FFFF);
    let q = Pointer32::<u32>::from(0x10);
    assert_eq!((q - 8).as_u32(), 0);
}

#[test]
fn pointer_null_and_conversions() {
    let n = Pointer32::<u8>::null();
    assert!(n.is_null());
    assert!(n.non_null().is_none());
    let p = Pointer32::<u8>::from(0x1000);
    assert!(!p.is_null());
    assert_eq!(p.non_null().map(|x| x.as_u32()), Some(0x1000));
    assert_eq!(p.as_u64(), 0x1000);
    assert_eq!(p.as_usize(), 0x1000);
    let raw = p.into_raw();
    assert_eq!(raw, 0x1000);
    assert_eq!(p.as_address(), Address(0x1000));
    assert_eq!(Pointer32::<[u16]>::from(0x2000).decay().as_u32(), 0x2000);
}

fn x86_view() -> VirtualDma<PhysicalImage> {
    let mut img = PhysicalImage::zeroed(0x10000);
    // Map virtual page 0x0040_0000 to physical 0x3000 with two-level x86 tables.
    img.write(0x1000 + 1 * 4, &(0x2000u32 | 1).to_le_bytes().to_vec());
    img.write(0x2000, &(0x3000u32 | 1).to_le_bytes().to_vec());
    img.write(0x3010, &0xDEAD_BEEFu32.to_le_bytes().to_vec());
    VirtualDma::new(img, Architecture::X86, Address(0x1000))
}

#[test]
fn pointer_deref_reads_target() {
    let view = x86_view();
    let p = Pointer32::<u32>::from(0x0040_0010);
    assert_eq!(p.deref(&view), Ok(0xDEAD_BEEF));
    let mut out: u32 = 0;
    assert_eq!(p.deref_into(&view, &mut out), Ok(()));
    assert_eq!(out, 0xDEAD_BEEF);
    let b = Pointer32::<u8>::from(0x0040_0011);
    assert_eq!(b.deref(&view), Ok(0xBE));
}

#[test]
fn pointer_deref_unmapped_fails() {
    let view = x86_view();
    let p = Pointer32::<u16>::from(0x0080_0000);
    let mut out: u16 = 7;
    let fault = ReadFailure {
        offset: 0,
        len: 2,
        cause: FaultKind::NotPresent,
    };
    assert_eq!(p.deref(&view), Err(Error::Partial(fault)));
    assert_eq!(p.deref_into(&view, &mut out), Err(Error::Partial(fault)));
    assert_eq!(out, 0);
}

#[test]
fn pointer_deref_into_keeps_bytes_that_came_through() {
    let mut view = x86_view();
    view.phys.write(0x3FFE, &vec![0xAA, 0xBB]);
    let p = Pointer32::<u32>::from(0x0040_0FFE);
    let mut out: u32 = 0xFFFF_FFFF;
    assert_eq!(
        p.deref_into(&view, &mut out),
        Err(Error::Partial(ReadFailure {
            offset: 2,
            len: 2,
            cause: FaultKind::NotPresent,
        }))
    );
    assert_eq!(out, 0x0000_BBAA);
}

#[test]
fn pointer_default_equality_and_order() {
    let d: Pointer32<u8> = Pointer32::default();
    assert!(d.is_null());
    let a = Pointer32::<u8>::from(0x10);
    let b = Pointer32::<u8>::from(0x20);
    assert!(a == Pointer32::from(0x10));
    assert!(a != b);
    assert!(a < b);
    assert_eq!(a.partial_cmp(&b), Some(std::cmp::Ordering::Less));
    assert_eq!(b.partial_cmp(&a), Some(std::cmp::Ordering::Greater));
}

#[test]
fn pointer_into_integers() {
    let p = Pointer32::<u8>::from(0x1234);
    assert_eq!(u64::from(p), 0x1234u64);
    assert_eq!(u32::from(p), 0x1234u32);
    assert_eq!(Address::from(p), Address(0x1234));
    let r: &u32 = p.as_ref();
    assert_eq!(*r, 0x1234);
    let mut q = p;
    *q.as_mut() = 0x5678;
    assert_eq!(q.as_u32(), 0x5678);
}

#[test]
fn pointer_byte_swap() {
    let mut p = Pointer32::<u8>::from(0x1122_3344);
    p.byte_swap();
    assert_eq!(p.as_u32(), 0x4433_2211);
}
