use memflow_win32::list::{list_entries_callback, MAX_ITER_COUNT};
use memflow_win32::{
    Address, Architecture, Error, PhysicalImage, StartBlock, VirtualDma, Win32ArchOffsets,
    Win32Kernel, Win32KernelOffsets, Win32ModuleListInfo, Win32Process,
};

const VA_BASE: u64 = 0xFFFF_F780_0000_0000;
const PML4: u64 = 0x10000;

fn put(img: &mut PhysicalImage, pa: u64, bytes: &[u8]) {
    img.write(pa as usize, &bytes.to_vec());
}

fn put_u64(img: &mut PhysicalImage, pa: u64, v: u64) {
    put(img, pa, &v.to_le_bytes());
}

fn idx(va: u64, shift: u32) -> u64 {
    (va >> shift) & 0x1ff
}

/// x64 tables mapping four pages from `VA_BASE` to physical 0x2000..0x6000.
fn image() -> PhysicalImage {
    let mut img = PhysicalImage::zeroed(0x20000);
    put_u64(&mut img, PML4 + idx(VA_BASE, 39) * 8, 0x11000 | 3);
    put_u64(&mut img, 0x11000 + idx(VA_BASE, 30) * 8, 0x12000 | 3);
    put_u64(&mut img, 0x12000 + idx(VA_BASE, 21) * 8, 0x13000 | 3);
    for p in 0..4u64 {
        put_u64(&mut img, 0x13000 + p * 8, (0x2000 + p * 0x1000) | 3);
    }
    img
}

/// Physical address of a virtual address of the mapped range.
fn pa(va: u64) -> u64 {
    va - VA_BASE + 0x2000
}

fn view(img: PhysicalImage) -> VirtualDma<PhysicalImage> {
    VirtualDma::new(img, Architecture::X64, Address(PML4))
}

#[test]
fn list_ends_on_misaligned_flink() {
    let h = VA_BASE + 0x100;
    let e = VA_BASE + 0x200;
    let mut img = image();
    put_u64(&mut img, pa(h), e);
    put_u64(&mut img, pa(e), h | 0b100);
    let v = view(img);
    let info = Win32ModuleListInfo::with_base(Address(h), Architecture::X64).unwrap();
    assert_eq!(info.module_base(), Address(h));
    assert_eq!(
        info.module_entry_list(&v, Architecture::X64),
        Ok(vec![Address(e)])
    );
    let mut seen: Vec<Address> = vec![];
    assert_eq!(
        info.module_entry_list_callback(&v, Architecture::X64, &mut seen),
        Ok(())
    );
    assert_eq!(seen, vec![Address(e)]);
}

#[test]
fn list_ends_at_head_and_on_null() {
    let h = VA_BASE + 0x100;
    let e1 = VA_BASE + 0x200;
    let e2 = VA_BASE + 0x300;
    let mut img = image();
    put_u64(&mut img, pa(h), e1);
    put_u64(&mut img, pa(e1), e2);
    put_u64(&mut img, pa(e2), h);
    let v = view(img);
    let info = Win32ModuleListInfo::with_base(Address(h), Architecture::X64).unwrap();
    assert_eq!(
        info.module_entry_list(&v, Architecture::X64),
        Ok(vec![Address(e1), Address(e2)])
    );
    let mut img = image();
    put_u64(&mut img, pa(h), e1);
    put_u64(&mut img, pa(e1), 0);
    let v = view(img);
    assert_eq!(
        info.module_entry_list(&v, Architecture::X64),
        Ok(vec![Address(e1)])
    );
}

#[test]
fn list_walk_is_bounded() {
    // A cycle that never returns to the head.
    let h = VA_BASE + 0x100;
    let e1 = VA_BASE + 0x200;
    let e2 = VA_BASE + 0x300;
    let mut img = image();
    put_u64(&mut img, pa(h), e1);
    put_u64(&mut img, pa(e1), e2);
    put_u64(&mut img, pa(e2), e1);
    let v = view(img);
    let info = Win32ModuleListInfo::with_base(Address(h), Architecture::X64).unwrap();
    let list = info.module_entry_list(&v, Architecture::X64).unwrap();
    assert_eq!(list.len(), MAX_ITER_COUNT);
    let mut seen: Vec<Address> = vec![];
    assert_eq!(list_entries_callback(&v, 8, Address(h), &mut seen), Ok(()));
    assert_eq!(seen.len(), MAX_ITER_COUNT);
}

#[test]
fn list_unreadable_link_is_an_error() {
    let v = view(image());
    let info = Win32ModuleListInfo::with_base(Address(0x1000), Architecture::X64).unwrap();
    assert!(info.module_entry_list(&v, Architecture::X64).is_err());
}

fn utf16(s: &str) -> Vec<u8> {
    s.encode_utf16().flat_map(|u| u.to_le_bytes()).collect()
}

/// Writes a 64-bit `UNICODE_STRING` at `at` whose text sits at `buf`.
fn put_unicode(img: &mut PhysicalImage, at: u64, buf: u64, s: &str) {
    let bytes = utf16(s);
    put(img, pa(at), &(bytes.len() as u16).to_le_bytes());
    put(img, pa(at) + 2, &(bytes.len() as u16).to_le_bytes());
    put_u64(img, pa(at) + 8, buf);
    put(img, pa(buf), &bytes);
}

fn offsets() -> Win32KernelOffsets {
    Win32KernelOffsets {
        eproc_link: 0x70,
        eproc_pid: 0x10,
        eproc_name: 0x20,
        eproc_dtb: 0x40,
        eproc_peb: 0x48,
        eproc_wow64: 0x50,
        eproc_section_base: 0x58,
        eproc_exit_status: 0x60,
        eproc_thread_list: 0x68,
        ethread_list_entry: 0x10,
    }
}

const EPROC: u64 = VA_BASE;
const HEAD: u64 = VA_BASE + 0x3000;
const PEB: u64 = VA_BASE + 0x400;
const LDR: u64 = VA_BASE + 0x500;
const ENTRY: u64 = VA_BASE + 0x800;
const PEB32: u64 = VA_BASE + 0x600;

/// A guest with one process; `wow64` puts a 32-bit PEB beside its own.
fn guest(wow64: bool, name: &[u8]) -> PhysicalImage {
    let mut img = image();
    let o = offsets();
    // Active process list: head -> EPROCESS.ActiveProcessLinks -> head.
    put_u64(&mut img, pa(HEAD), EPROC + o.eproc_link);
    put_u64(&mut img, pa(EPROC + o.eproc_link), HEAD);
    put_u64(&mut img, pa(EPROC + o.eproc_pid), 1234);
    put(&mut img, pa(EPROC + o.eproc_name), name);
    put_u64(&mut img, pa(EPROC + o.eproc_dtb), PML4);
    put_u64(&mut img, pa(EPROC + o.eproc_peb), PEB);
    put_u64(&mut img, pa(EPROC + o.eproc_wow64), if wow64 { PEB32 } else { 0 });
    put_u64(&mut img, pa(EPROC + o.eproc_section_base), 0x1_4000_0000);
    put(&mut img, pa(EPROC + o.eproc_exit_status), &259u32.to_le_bytes());
    put_u64(&mut img, pa(EPROC + o.eproc_thread_list), VA_BASE + 0x1010);
    // Native PEB -> PEB_LDR_DATA; the module list head is at LDR + 0x10.
    put_u64(&mut img, pa(PEB + 0x18), LDR);
    let head = LDR + 0x10;
    put_u64(&mut img, pa(head), ENTRY);
    put_u64(&mut img, pa(ENTRY), head);
    put_u64(&mut img, pa(ENTRY + 0x30), 0x1_4000_0000);
    put_u64(&mut img, pa(ENTRY + 0x40), 0x5000);
    put_unicode(&mut img, ENTRY + 0x48, VA_BASE + 0x1800, "C:\\test.exe");
    put_unicode(&mut img, ENTRY + 0x58, VA_BASE + 0x1900, "test.exe");
    // 32-bit PEB: PEB.Ldr at 0xc.
    put(&mut img, pa(PEB32 + 0xc), &0x7000u32.to_le_bytes());
    img
}

fn kernel(img: PhysicalImage) -> Win32Kernel<PhysicalImage> {
    let sb = StartBlock {
        arch: Architecture::X64,
        kernel_hint: Address(0),
        dtb: Address(PML4),
    };
    Win32Kernel::new(img, sb, offsets(), Address(HEAD))
}

#[test]
fn process_walk_reads_eprocess() {
    let k = kernel(guest(false, b"test.exe\0\0\0\0\0\0\0"));
    assert_eq!(k.process_address_list(), Ok(vec![Address(EPROC)]));
    let list = k.process_info_list().unwrap();
    assert_eq!(list.len(), 1);
    let p = &list[0];
    assert_eq!(p.pid(), 1234);
    assert_eq!(p.name(), "test.exe");
    assert_eq!(p.address(), Address(EPROC));
    assert_eq!(p.dtb, Address(PML4));
    assert_eq!(p.exit_status, 259);
    assert_eq!(p.ethread, Address(VA_BASE + 0x1000));
    assert_eq!(p.wow64(), Address(0));
    assert_eq!(p.peb(), Address(PEB));
    assert_eq!(p.proc_arch(), Architecture::X64);
    assert_eq!(p.sys_arch(), Architecture::X64);
    assert!(p.module_info_wow64().is_none());
    assert_eq!(p.module_info().module_base, Address(LDR + 0x10));
    assert_eq!(p.translator().dtb, Address(PML4));
}

#[test]
fn process_with_unprintable_name_is_dropped() {
    let k = kernel(guest(false, b"te\x01t.exe\0\0\0\0\0\0\0"));
    assert_eq!(k.process_info_from_eprocess(Address(EPROC)).err(), Some(Error::Other));
    assert_eq!(k.process_info_list().unwrap().len(), 0);
}

#[test]
fn wow64_module_view() {
    let k = kernel(guest(true, b"test.exe\0\0\0\0\0\0\0"));
    let p = k.process_info_from_eprocess(Address(EPROC)).unwrap();
    assert_eq!(p.proc_arch(), Architecture::X86);
    assert_eq!(p.sys_arch(), Architecture::X64);
    let wow = p.module_info_wow64().unwrap();
    assert_eq!(p.module_info(), wow);
    assert_eq!(wow.module_base, Address(0x7000 + 0xc));
    assert_eq!(wow.offsets, Win32ArchOffsets::from(Architecture::X86));
    assert_eq!(p.module_info_native().module_base, Address(LDR + 0x10));
    assert_eq!(
        p.module_info_native().offsets,
        Win32ArchOffsets::from(Architecture::X64)
    );
    assert_eq!(p.peb(), Address(PEB32));
    assert_eq!(p.peb_native(), Address(PEB));
    assert_eq!(p.peb_wow64(), Some(Address(PEB32)));
}

#[test]
fn process_modules_by_section_base_and_name() {
    let k = kernel(guest(false, b"test.exe\0\0\0\0\0\0\0"));
    let info = k.process_info_from_eprocess(Address(EPROC)).unwrap();
    let proc = Win32Process::with_kernel_ref(&k, info);
    assert_eq!(proc.module_entry_list(), Ok(vec![Address(ENTRY)]));
    assert_eq!(proc.module_entry_list_native(), Ok(vec![Address(ENTRY)]));
    assert_eq!(proc.module_entry_list_wow64(), Err(Error::Other));
    let modules = proc.module_list().unwrap();
    assert_eq!(modules.len(), 1);
    assert_eq!(modules[0].name, "test.exe");
    assert_eq!(modules[0].path, "C:\\test.exe");
    assert_eq!(modules[0].size, 0x5000);
    assert_eq!(modules[0].parent_process, Address(EPROC));
    let main = proc.main_module_info().unwrap();
    assert_eq!(main.base, Address(0x1_4000_0000));
    assert_eq!(main.address, Address(ENTRY));
    assert_eq!(proc.module_info("test.exe").unwrap().name, "test.exe");
    assert_eq!(proc.module_info("other.dll").err(), Some(Error::ModuleInfo));
    assert_eq!(
        proc.module_info_by_address(Address(ENTRY), Architecture::X86).err(),
        Some(Error::InvalidArchitecture)
    );
    let addrs = proc.module_address_list(None).unwrap();
    assert_eq!(addrs.len(), 1);
    assert_eq!(addrs[0].arch, Architecture::X64);
    let mut seen: Vec<memflow_win32::ModuleAddressInfo> = vec![];
    assert_eq!(proc.module_address_list_callback(Some(Architecture::X64), &mut seen), Ok(()));
    assert_eq!(seen, addrs);
}

#[test]
fn process_owning_view_gives_memory_back() {
    let k = kernel(guest(false, b"test.exe\0\0\0\0\0\0\0"));
    let info = k.process_info_from_eprocess(Address(EPROC)).unwrap();
    let proc = Win32Process::with_kernel(k, info);
    assert_eq!(proc.main_module_info().unwrap().name, "test.exe");
    let img = proc.destroy();
    assert_eq!(img.data.len(), 0x20000);
}

#[test]
fn module_from_peb() {
    let img = guest(false, b"test.exe\0\0\0\0\0\0\0");
    let v = view(img);
    let info = Win32ModuleListInfo::with_peb(&v, Address(PEB), Architecture::X64).unwrap();
    assert_eq!(info.module_base, Address(LDR + 0x10));
    let m = info
        .module_info_from_entry(Address(ENTRY), Address(EPROC), &v, Architecture::X64)
        .unwrap();
    assert_eq!(m.name, "test.exe");
    assert_eq!(m.base, Address(0x1_4000_0000));
}

#[test]
fn unicode_string_odd_length_is_encoding_error() {
    let mut img = image();
    put(&mut img, pa(VA_BASE + 0x100), &3u16.to_le_bytes());
    let v = view(img);
    assert_eq!(
        v.virt_read_unicode_string(Architecture::X64, Address(VA_BASE + 0x100)),
        Err(Error::Encoding)
    );
}

#[test]
fn unicode_string_lossy_decoding() {
    let mut img = image();
    let at = VA_BASE + 0x100;
    put(&mut img, pa(at), &4u16.to_le_bytes());
    put_u64(&mut img, pa(at) + 8, VA_BASE + 0x200);
    // 'A' followed by an unpaired high surrogate.
    put(&mut img, pa(VA_BASE + 0x200), &[0x41, 0x00, 0x00, 0xD8]);
    let v = view(img);
    assert_eq!(
        v.virt_read_unicode_string(Architecture::X64, Address(at)),
        Ok(String::from("A\u{FFFD}"))
    );
}

#[test]
fn process_clone_and_translator() {
    let k = kernel(guest(false, b"test.exe\0\0\0\0\0\0\0"));
    let info = k.process_info_from_eprocess(Address(EPROC)).unwrap();
    let t = info.translator();
    assert_eq!(t.virt_to_phys(&k.virt_mem.phys, Address(VA_BASE + 0x1234)), Ok(0x3234));
    assert_eq!(
        t.virt_to_phys(&k.virt_mem.phys, Address(VA_BASE + 0x4000)),
        Err(Error::NotPresent)
    );
    let chunks = t.virt_translate_list(
        &k.virt_mem.phys,
        &vec![(Address(VA_BASE + 0xFF0), 0x20usize), (Address(VA_BASE + 0x4000), 1usize)],
    );
    let got: Vec<(usize, u64, usize, Result<Address, Error>)> =
        chunks.iter().map(|c| (c.tag, c.va.0, c.len, c.pa)).collect();
    assert_eq!(
        got,
        vec![
            (0, VA_BASE + 0xFF0, 0x10, Ok(Address(0x2FF0))),
            (0, VA_BASE + 0x1000, 0x10, Ok(Address(0x3000))),
            (1, VA_BASE + 0x4000, 1, Err(Error::NotPresent)),
        ]
    );
    let proc = Win32Process::with_kernel(k, info);
    let copy = proc.clone();
    assert_eq!(copy.info().pid, 1234);
    assert_eq!(copy.module_entry_list(), proc.module_entry_list());
    assert_eq!(copy.virt_mem().dtb, Address(PML4));
}

#[test]
fn kernel_destroy_returns_memory() {
    let k = kernel(guest(false, b"test.exe\0\0\0\0\0\0\0"));
    assert_eq!(k.start_block.dtb, Address(PML4));
    assert_eq!(k.destroy().data.len(), 0x20000);
}

#[test]
fn callback_walk_error_after_entries_before_it() {
    // e1 links to 0x8000, an aligned address that is not mapped: it is handed
    // on, and reading its own link fails.
    let h = VA_BASE + 0x100;
    let e1 = VA_BASE + 0x200;
    let mut img = image();
    put_u64(&mut img, pa(h), e1);
    put_u64(&mut img, pa(e1), 0x8000);
    let v = view(img);
    let mut seen: Vec<Address> = vec![];
    assert_eq!(
        list_entries_callback(&v, 8, Address(h), &mut seen),
        Err(Error::Partial(memflow_win32::ReadFailure {
            offset: 0,
            len: 8,
            cause: memflow_win32::FaultKind::NotPresent,
        }))
    );
    assert_eq!(seen, vec![Address(e1), Address(0x8000)]);
}

#[test]
fn module_callback_tags_each_list() {
    let k = kernel(guest(true, b"test.exe\0\0\0\0\0\0\0"));
    let info = k.process_info_from_eprocess(Address(EPROC)).unwrap();
    let proc = Win32Process::with_kernel_ref(&k, info);
    // The native list reads; the 32-bit one has its head at an unmapped address.
    let mut seen: Vec<memflow_win32::ModuleAddressInfo> = vec![];
    let r = proc.module_address_list_callback(None, &mut seen);
    assert!(r.is_err());
    assert_eq!(seen.len(), 1);
    assert_eq!(seen[0].address, Address(ENTRY));
    assert_eq!(seen[0].arch, Architecture::X64);
    let mut native_only: Vec<memflow_win32::ModuleAddressInfo> = vec![];
    assert_eq!(
        proc.module_address_list_callback(Some(Architecture::X64), &mut native_only),
        Ok(())
    );
    assert_eq!(native_only, seen);
}
