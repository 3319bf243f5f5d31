use memflow_win32::translate::virt_to_phys;
use memflow_win32::x86pae::find;
use memflow_win32::{
    Address, Architecture, Error, FaultKind, PhysicalImage, PhysicalMemory, ReadFailure,
    StartBlock, VirtualDma,
};

const VA_BASE: u64 = 0xFFFF_F780_0000_0000;
const PML4: u64 = 0x10000;
const PDPT: u64 = 0x11000;
const PD: u64 = 0x12000;
const PT: u64 = 0x13000;

fn put_u64(img: &mut PhysicalImage, pa: u64, v: u64) {
    img.write(pa as usize, &v.to_le_bytes().to_vec());
}

fn put_u32(img: &mut PhysicalImage, pa: u64, v: u32) {
    img.write(pa as usize, &v.to_le_bytes().to_vec());
}

fn idx(va: u64, shift: u32) -> u64 {
    (va >> shift) & 0x1ff
}

/// Page tables that map the 4 KiB page at `VA_BASE` to physical 0x2000.
fn x64_image() -> PhysicalImage {
    let mut img = PhysicalImage::zeroed(0x20000);
    put_u64(&mut img, PML4 + idx(VA_BASE, 39) * 8, PDPT | 3);
    put_u64(&mut img, PDPT + idx(VA_BASE, 30) * 8, PD | 3);
    put_u64(&mut img, PD + idx(VA_BASE, 21) * 8, PT | 3);
    put_u64(&mut img, PT + idx(VA_BASE, 12) * 8, 0x2000 | 3);
    img
}

fn fill_pattern(img: &mut PhysicalImage, from: u64, to: u64) {
    let bytes: Vec<u8> = (from..to).map(|a| (a % 251) as u8).collect();
    img.write(from as usize, &bytes);
}

#[test]
fn low_stub_pae_detection() {
    let mut mem = vec![0u8; 16 * 1024 * 1024];
    for i in 0..4u64 {
        let q = 0x1A_0000u64 + (i << 12) + 0x1001;
        let at = 0x1A_0000usize + 8 * i as usize;
        mem[at..at + 8].copy_from_slice(&q.to_le_bytes());
    }
    let sb = find(&mem).unwrap();
    assert_eq!(
        sb,
        StartBlock {
            arch: Architecture::X86Pae,
            kernel_hint: Address(0),
            dtb: Address(0x1A_0000),
        }
    );
}

#[test]
fn low_stub_absent_fails() {
    let mem = vec![0u8; 0x10000];
    assert_eq!(find(&mem), Err(Error::Initialization));
}

#[test]
fn low_stub_nonzero_tail_rejected() {
    let mut mem = vec![0u8; 0x4000];
    for i in 0..4u64 {
        let q = 0x1000u64 + (i << 12) + 0x1001;
        let at = 0x1000usize + 8 * i as usize;
        mem[at..at + 8].copy_from_slice(&q.to_le_bytes());
    }
    mem[0x1000 + 0x800] = 1;
    assert_eq!(find(&mem), Err(Error::Initialization));
}

#[test]
fn low_stub_is_deterministic() {
    let mut mem = vec![0u8; 0x300000];
    for base in [0x20_0000u64, 0x10_0000u64] {
        for i in 0..4u64 {
            let q = base + (i << 12) + 0x1001;
            let at = base as usize + 8 * i as usize;
            mem[at..at + 8].copy_from_slice(&q.to_le_bytes());
        }
    }
    let a = find(&mem).unwrap();
    let b = find(&mem).unwrap();
    assert_eq!(a, b);
    assert_eq!(a.dtb, Address(0x10_0000));
}

#[test]
fn translate_x64_identity_mapped_range() {
    let img = x64_image();
    let view = VirtualDma::new(img, Architecture::X64, Address(PML4));
    assert_eq!(
        view.virt_translate(Address(0xFFFF_F780_0000_0123)),
        Ok(Address(0x2123))
    );
    assert_eq!(
        view.virt_translate(Address(0xFFFF_F780_0000_1000)),
        Err(Error::NotPresent)
    );
}

#[test]
fn translate_x64_large_page() {
    let mut img = x64_image();
    let va = VA_BASE + 0x20_0000;
    put_u64(&mut img, PD + idx(va, 21) * 8, 0x40_0000 | 0x83);
    assert_eq!(
        virt_to_phys(&img, Architecture::X64, PML4, va + 0x1_2345),
        Ok(0x41_2345)
    );
}

#[test]
fn translate_table_outside_memory_is_connector_error() {
    let img = PhysicalImage::zeroed(0x1000);
    assert_eq!(
        virt_to_phys(&img, Architecture::X64, 0x10_0000, 0x1234),
        Err(Error::Connector)
    );
}

#[test]
fn translate_x86_two_levels() {
    let mut img = PhysicalImage::zeroed(0x10000);
    let va: u64 = 0x8040_3123;
    put_u32(&mut img, 0x1000 + ((va >> 22) & 0x3ff) * 4, 0x2000 | 1);
    put_u32(&mut img, 0x2000 + ((va >> 12) & 0x3ff) * 4, 0x7000 | 1);
    assert_eq!(virt_to_phys(&img, Architecture::X86, 0x1000, va), Ok(0x7123));
    // A 4 MiB page at the directory level.
    put_u32(&mut img, 0x1000 + 4, 0x0040_0000 | 0x81);
    assert_eq!(
        virt_to_phys(&img, Architecture::X86, 0x1000, 0x0041_2345),
        Ok(0x0041_2345)
    );
}

#[test]
fn translate_x86_pae_three_levels() {
    let mut img = PhysicalImage::zeroed(0x10000);
    let va: u64 = 0xC020_1456;
    put_u64(&mut img, 0x1000 + ((va >> 30) & 3) * 8, 0x2000 | 1);
    put_u64(&mut img, 0x2000 + ((va >> 21) & 0x1ff) * 8, 0x3000 | 1);
    put_u64(&mut img, 0x3000 + ((va >> 12) & 0x1ff) * 8, 0x9000 | 1);
    assert_eq!(virt_to_phys(&img, Architecture::X86Pae, 0x1000, va), Ok(0x9456));
}

#[test]
fn cross_page_virtual_read() {
    let mut img = x64_image();
    put_u64(&mut img, PT + (idx(VA_BASE, 12) + 1) * 8, 0x5000 | 3);
    fill_pattern(&mut img, 0x2000, 0x6000);
    let expected: Vec<u8> = img.data[0x2800..0x3000]
        .iter()
        .chain(img.data[0x5000..0x6000].iter())
        .copied()
        .collect();
    let view = VirtualDma::new(img, Architecture::X64, Address(PML4));
    let out = view.virt_read(Address(VA_BASE + 0x800), 0x1800);
    assert!(out.failed.is_empty());
    assert_eq!(out.data, expected);
    assert_eq!(
        view.virt_read_exact(Address(VA_BASE + 0x800), 0x1800),
        Ok(expected)
    );
}

#[test]
fn cross_page_virtual_read_partial() {
    let mut img = x64_image();
    // The second page's entry is present bit clear.
    put_u64(&mut img, PT + (idx(VA_BASE, 12) + 1) * 8, 0x5000 | 2);
    fill_pattern(&mut img, 0x2000, 0x6000);
    let first: Vec<u8> = img.data[0x2800..0x3000].to_vec();
    let view = VirtualDma::new(img, Architecture::X64, Address(PML4));
    let out = view.virt_read(Address(VA_BASE + 0x800), 0x1800);
    let failure = ReadFailure {
        offset: 0x800,
        len: 0x1000,
        cause: FaultKind::NotPresent,
    };
    assert_eq!(out.failed, vec![failure]);
    assert_eq!(&out.data[..0x800], &first[..]);
    assert!(out.data[0x800..].iter().all(|b| *b == 0));
    assert_eq!(
        view.virt_read_exact(Address(VA_BASE + 0x800), 0x1800),
        Err(Error::Partial(failure))
    );
}

#[test]
fn translation_round_trip_within_page() {
    let mut img = x64_image();
    fill_pattern(&mut img, 0x2000, 0x3000);
    let phys: Vec<u8> = img.phys_read(0x2123, 0x100).unwrap();
    let view = VirtualDma::new(img, Architecture::X64, Address(PML4));
    let pa = view.virt_translate(Address(VA_BASE + 0x123)).unwrap();
    assert_eq!(pa, Address(0x2123));
    assert_eq!(view.virt_read_exact(Address(VA_BASE + 0x123), 0x100), Ok(phys));
}

#[test]
fn batched_translation_matches_single() {
    let mut img = x64_image();
    put_u64(&mut img, PT + (idx(VA_BASE, 12) + 1) * 8, 0x5000 | 3);
    let view = VirtualDma::new(img, Architecture::X64, Address(PML4));
    let reqs = vec![
        (Address(VA_BASE + 0xF00), 0x200usize),
        (Address(VA_BASE + 0x10), 0x10usize),
        (Address(VA_BASE + 0x2000), 0x8usize),
    ];
    let chunks = view.virt_translate_list(&reqs);
    let summary: Vec<(usize, u64, usize)> =
        chunks.iter().map(|c| (c.tag, c.va.0, c.len)).collect();
    assert_eq!(
        summary,
        vec![
            (0, VA_BASE + 0xF00, 0x100),
            (0, VA_BASE + 0x1000, 0x100),
            (1, VA_BASE + 0x10, 0x10),
            (2, VA_BASE + 0x2000, 0x8),
        ]
    );
    for c in &chunks {
        assert_eq!(c.pa, view.virt_translate(c.va));
    }
    assert_eq!(chunks[1].pa, Ok(Address(0x5000)));
    assert_eq!(chunks[3].pa, Err(Error::NotPresent));
}

#[test]
fn typed_reads_are_little_endian() {
    let mut img = x64_image();
    put_u64(&mut img, 0x2010, 0x1122_3344_5566_7788);
    let view = VirtualDma::new(img, Architecture::X64, Address(PML4));
    assert_eq!(view.virt_read_u64(Address(VA_BASE + 0x10)), Ok(0x1122_3344_5566_7788));
    assert_eq!(view.virt_read_u32(Address(VA_BASE + 0x10)), Ok(0x5566_7788));
    assert_eq!(view.virt_read_u16(Address(VA_BASE + 0x10)), Ok(0x7788));
    assert_eq!(
        view.virt_read_addr_arch(Architecture::X86, Address(VA_BASE + 0x10)),
        Ok(Address(0x5566_7788))
    );
}

#[test]
fn read_past_end_of_address_space_is_out_of_bounds() {
    let view = VirtualDma::new(x64_image(), Architecture::X64, Address(PML4));
    assert_eq!(
        view.virt_read_exact(Address(u64::MAX - 2), 8),
        Err(Error::OutOfBounds)
    );
}

#[test]
fn physical_read_bounds() {
    let img = PhysicalImage::zeroed(0x100);
    assert_eq!(img.phys_read(0xF8, 8), Ok(vec![0u8; 8]));
    assert_eq!(img.phys_read(0xF9, 8), Err(Error::Connector));
    assert_eq!(img.metadata().size, 0x100);
}

#[test]
fn low_stub_found_in_physical_memory() {
    let mut img = PhysicalImage::zeroed(0x40_0000);
    for i in 0..4u64 {
        let q = 0x3_0000u64 + (i << 12) + 0x1001;
        img.write(0x3_0000 + 8 * i as usize, &q.to_le_bytes().to_vec());
    }
    let sb = memflow_win32::x86pae::find_in(&img).unwrap();
    assert_eq!(sb.dtb, Address(0x3_0000));
    assert_eq!(sb.arch, Architecture::X86Pae);
    assert_eq!(sb.kernel_hint, Address(0));
}
