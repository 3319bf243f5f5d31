use vstd::prelude::*;

use crate::architecture::Architecture;
use crate::error::Error;
use crate::list::{list_entries, spec_list_entries};
use crate::phys::PhysicalMemory;
use crate::offsets::Win32ArchOffsets;
use crate::process::{
    spec_with_peb, ProcessInfo, Win32ModuleListInfo, Win32ProcessInfo, Win32ProcessInfoView,
    IMAGE_FILE_NAME_LENGTH,
};
use crate::start_block::StartBlock;
use crate::types::{spec_checked_add, Address};
use crate::virt::{decode_utf16_lossy, spec_read_bytes, spec_read_field, utf16_lossy, VirtualDma};

verus! {

/// Byte offsets into the kernel's process structures for one Windows build.
#[derive(Clone, Copy, PartialEq, Eq, Structural, Debug)]
pub struct Win32KernelOffsets {
    /// `EPROCESS.ActiveProcessLinks`
    pub eproc_link: u64,
    /// `EPROCESS.UniqueProcessId`
    pub eproc_pid: u64,
    /// `EPROCESS.ImageFileName`
    pub eproc_name: u64,
    /// `KPROCESS.DirectoryTableBase`
    pub eproc_dtb: u64,
    /// `EPROCESS.Peb`
    pub eproc_peb: u64,
    /// `EPROCESS.Wow64Process`; zero on builds without one.
    pub eproc_wow64: u64,
    /// `EPROCESS.SectionBaseAddress`
    pub eproc_section_base: u64,
    /// `EPROCESS.ExitStatus`
    pub eproc_exit_status: u64,
    /// `EPROCESS.ThreadListHead`
    pub eproc_thread_list: u64,
    /// `ETHREAD.ThreadListEntry`
    pub ethread_list_entry: u64,
}

/// The views of the records of `v`.
pub open spec fn spec_process_views(v: Seq<Win32ProcessInfo>) -> Seq<Win32ProcessInfoView> {
    v.map_values(|p: Win32ProcessInfo| p@)
}

/// The low 32 bits of `v`.
#[verifier::truncate]
pub open spec fn spec_low_u32(v: u64) -> u32 {
    v as u32
}

/// The low 32 bits of `v`, as a signed value.
#[verifier::truncate]
pub open spec fn spec_low_i32(v: u64) -> i32 {
    (v as u32) as i32
}

/// `a - b` modulo 2^64.
pub open spec fn spec_wrapping_sub(a: u64, b: u64) -> u64 {
    if a >= b {
        (a - b) as u64
    } else {
        (a + 0x1_0000_0000_0000_0000 - b) as u64
    }
}

fn wrapping_sub(a: u64, b: u64) -> (r: u64)
    ensures
        r == spec_wrapping_sub(a, b),
{
    if a >= b {
        a - b
    } else {
        (a as u128 + 0x1_0000_0000_0000_0000u128 - b as u128) as u64
    }
}

/// The bytes of `b` before its first zero.
pub open spec fn spec_trim_nul(b: Seq<u8>) -> Seq<u8>
    decreases b.len(),
{
    if b.len() == 0 || b[0] == 0 {
        Seq::empty()
    } else {
        seq![b[0]] + spec_trim_nul(b.drop_first())
    }
}

/// Whether every byte of `b` is printable ASCII.
pub open spec fn spec_printable(b: Seq<u8>) -> bool {
    forall|i: int| 0 <= i < b.len() ==> 0x20 <= #[trigger] b[i] <= 0x7e
}

/// Each byte of `b` widened to a UTF-16 code unit.
pub open spec fn spec_widen(b: Seq<u8>) -> Seq<u16> {
    b.map_values(|c: u8| c as u16)
}

/// The architecture of the code of a process of a system of `sys`: 32-bit x86
/// for a WoW64 process of a 64-bit system, else the system's.
pub open spec fn spec_proc_arch(sys: Architecture, wow64: u64) -> Architecture {
    if wow64 != 0 && (sys == Architecture::X64 || sys == Architecture::X64La57) {
        Architecture::X86
    } else {
        sys
    }
}

/// A kernel found in a guest: the view of its address space, what discovery
/// found, the offsets of its build, and the address of `PsActiveProcessHead`.
pub struct Win32Kernel<P> {
    pub virt_mem: VirtualDma<P>,
    pub start_block: StartBlock,
    pub offsets: Win32KernelOffsets,
    pub process_head: Address,
}

impl<P: PhysicalMemory> Win32Kernel<P> {
    pub open spec fn mem(&self) -> Seq<u8> {
        self.virt_mem.mem()
    }

    pub open spec fn sys_arch(&self) -> Architecture {
        self.start_block.arch
    }

    /// A pointer-wide field at `off` bytes into the `EPROCESS` at `eprocess`.
    pub open spec fn spec_field(&self, eprocess: u64, off: u64) -> Result<u64, Error> {
        spec_read_field(
            self.mem(),
            self.virt_mem.arch,
            self.virt_mem.dtb.0,
            self.sys_arch().spec_pointer_width(),
            eprocess,
            off,
        )
    }

    /// The image name of the `EPROCESS` at `eprocess`: its 15 bytes cut at
    /// the first zero, which must leave printable ASCII.
    pub open spec fn spec_image_name(&self, eprocess: Address) -> Result<Seq<char>, Error> {
        match spec_checked_add(eprocess, self.offsets.eproc_name) {
            None => Err(Error::OutOfBounds),
            Some(a) => match spec_read_bytes(
                self.mem(),
                self.virt_mem.arch,
                self.virt_mem.dtb.0,
                a.0,
                IMAGE_FILE_NAME_LENGTH as nat,
            ) {
                Err(e) => Err(e),
                Ok(b) => if spec_printable(spec_trim_nul(b)) {
                    Ok(utf16_lossy(spec_widen(spec_trim_nul(b))))
                } else {
                    Err(Error::Other)
                },
            },
        }
    }

    /// The module list of the PEB at `peb` of the address space at `dtb`; a
    /// null PEB (a process without user space) gives an empty list at null.
    pub open spec fn spec_modules(&self, dtb: u64, peb: u64, arch: Architecture) -> Result<
        Win32ModuleListInfo,
        Error,
    > {
        if peb == 0 {
            Ok(Win32ModuleListInfo { module_base: Address(0), offsets: Win32ArchOffsets::spec_from(arch) })
        } else {
            spec_with_peb(self.mem(), self.sys_arch(), dtb, peb, arch)
        }
    }

    /// The process that the `EPROCESS` at `eprocess` describes.
    pub open spec fn spec_process_info(&self, eprocess: Address) -> Result<Win32ProcessInfoView, Error> {
        let o = self.offsets;
        let sys = self.sys_arch();
        let e = eprocess.0;
        match self.spec_field(e, o.eproc_pid) {
            Err(x) => Err(x),
            Ok(pid) => match self.spec_image_name(eprocess) {
                Err(x) => Err(x),
                Ok(name) => match self.spec_field(e, o.eproc_dtb) {
                    Err(x) => Err(x),
                    Ok(dtb) => match self.spec_field(e, o.eproc_peb) {
                        Err(x) => Err(x),
                        Ok(peb) => match (if o.eproc_wow64 == 0 {
                            Ok(0u64)
                        } else {
                            self.spec_field(e, o.eproc_wow64)
                        }) {
                            Err(x) => Err(x),
                            Ok(wow64) => match self.spec_field(e, o.eproc_section_base) {
                                Err(x) => Err(x),
                                Ok(section_base) => match spec_read_field(
                                    self.mem(),
                                    self.virt_mem.arch,
                                    self.virt_mem.dtb.0,
                                    4,
                                    e,
                                    o.eproc_exit_status,
                                ) {
                                    Err(x) => Err(x),
                                    Ok(exit) => match self.spec_field(e, o.eproc_thread_list) {
                                        Err(x) => Err(x),
                                        Ok(flink) => {
                                            let proc_arch = spec_proc_arch(sys, wow64);
                                            match self.spec_modules(dtb, peb, sys) {
                                                Err(x) => Err(x),
                                                Ok(native) => match (if wow64 != 0 {
                                                    match spec_with_peb(self.mem(), sys, dtb, wow64, proc_arch) {
                                                        Ok(i) => Ok(Some(i)),
                                                        Err(x) => Err(x),
                                                    }
                                                } else {
                                                    Ok(None)
                                                }) {
                                                    Err(x) => Err(x),
                                                    Ok(wow) => Ok(
                                                        Win32ProcessInfoView {
                                                            address: eprocess,
                                                            pid: spec_low_u32(pid),
                                                            name,
                                                            sys_arch: sys,
                                                            proc_arch,
                                                            dtb: Address(dtb),
                                                            section_base: Address(section_base),
                                                            exit_status: spec_low_i32(exit),
                                                            ethread: Address(spec_wrapping_sub(flink, o.ethread_list_entry)),
                                                            wow64: Address(wow64),
                                                            teb: None,
                                                            teb_wow64: None,
                                                            peb_native: Address(peb),
                                                            peb_wow64: if wow64 != 0 { Some(Address(wow64)) } else { None },
                                                            module_info_native: native,
                                                            module_info_wow64: wow,
                                                        },
                                                    ),
                                                },
                                            }
                                        },
                                    },
                                },
                            },
                        },
                    },
                },
            },
        }
    }

    /// The records of the processes at `addrs` that can be read, in order.
    pub open spec fn spec_infos_of(&self, addrs: Seq<Address>) -> Seq<Win32ProcessInfoView>
        decreases addrs.len(),
    {
        if addrs.len() == 0 {
            Seq::empty()
        } else {
            let rest = self.spec_infos_of(addrs.drop_first());
            match self.spec_process_info(addrs[0]) {
                Ok(v) => seq![v] + rest,
                Err(_) => rest,
            }
        }
    }

    /// The `EPROCESS` addresses of the active process list, in list order.
    pub open spec fn spec_process_addresses(&self) -> Result<Seq<Address>, Error> {
        match spec_list_entries(
            self.mem(),
            self.virt_mem.arch,
            self.virt_mem.dtb.0,
            self.sys_arch().spec_pointer_width(),
            self.process_head.0,
        ) {
            Ok(s) => Ok(
                s.map_values(
                    |a: Address| Address(spec_wrapping_sub(a.0, self.offsets.eproc_link)),
                ),
            ),
            Err(e) => Err(e),
        }
    }

    /// A kernel whose address space is the one that `start_block` found.
    pub fn new(
        phys: P,
        start_block: StartBlock,
        offsets: Win32KernelOffsets,
        process_head: Address,
    ) -> (r: Self)
        ensures
            r.virt_mem.phys == phys,
            r.virt_mem.arch == start_block.arch,
            r.virt_mem.proc_arch == start_block.arch,
            r.virt_mem.dtb == start_block.dtb,
            r.start_block == start_block,
            r.offsets == offsets,
            r.process_head == process_head,
    {
        Win32Kernel {
            virt_mem: VirtualDma::new(phys, start_block.arch, start_block.dtb),
            start_block,
            offsets,
            process_head,
        }
    }

    /// Gives the physical memory back.
    pub fn destroy(self) -> (r: P)
        ensures
            r == self.virt_mem.phys,
    {
        self.virt_mem.destroy()
    }

    /// The `EPROCESS` address of each entry of the active process list.
    pub fn process_address_list(&self) -> (r: Result<Vec<Address>, Error>)
        requires
            self.virt_mem.arch == self.sys_arch(),
        ensures
            match self.spec_process_addresses() {
                Ok(s) => r is Ok && r->Ok_0@ == s,
                Err(e) => r == Err::<Vec<Address>, Error>(e),
            },
    {
        let entries = list_entries(
            &self.virt_mem,
            self.start_block.arch.pointer_width(),
            self.process_head,
        )?;
        let ghost s = entries@;
        let mut out: Vec<Address> = Vec::new();
        let mut k: usize = 0;
        while k < entries.len()
            invariant
                k <= s.len(),
                s == entries@,
                out@ == s.take(k as int).map_values(
                    |a: Address| Address(spec_wrapping_sub(a.0, self.offsets.eproc_link)),
                ),
            decreases s.len() - k,
        {
            out.push(Address(wrapping_sub(entries[k].0, self.offsets.eproc_link)));
            k = k + 1;
            assert(out@ =~= s.take(k as int).map_values(
                |a: Address| Address(spec_wrapping_sub(a.0, self.offsets.eproc_link)),
            ));
        }
        assert(s.take(k as int) =~= s);
        Ok(out)
    }

    /// Reads the module list of the PEB at `peb` through `view`, as `spec_modules` says.
    fn modules_of(&self, view: &VirtualDma<&P>, peb: Address, arch: Architecture) -> (r: Result<
        Win32ModuleListInfo,
        Error,
    >)
        requires
            view.mem() == self.mem(),
            view.arch == self.sys_arch(),
        ensures
            r == self.spec_modules(view.dtb.0, peb.0, arch),
    {
        if peb.is_null() {
            Win32ModuleListInfo::with_base(peb, arch)
        } else {
            Win32ModuleListInfo::with_peb(view, peb, arch)
        }
    }

    /// Reads the process that the `EPROCESS` at `eprocess` describes: its id,
    /// image name, page tables, PEB, WoW64 state, section base, exit status,
    /// first thread, and module lists (a 32-bit one too for a WoW64 process).
    pub fn process_info_from_eprocess(&self, eprocess: Address) -> (r: Result<
        Win32ProcessInfo,
        Error,
    >)
        requires
            self.virt_mem.arch == self.sys_arch(),
        ensures
            match self.spec_process_info(eprocess) {
                Ok(v) => r is Ok && r->Ok_0@ == v,
                Err(e) => r is Err && r->Err_0 == e,
            },
            r is Ok ==> r->Ok_0.wf(),
    {
        let o = self.offsets;
        let sys = self.start_block.arch;
        let pid = self.virt_mem.read_addr_field(sys, eprocess, o.eproc_pid)?;
        let name = self.read_image_name(eprocess)?;
        let dtb = self.virt_mem.read_addr_field(sys, eprocess, o.eproc_dtb)?;
        let peb = self.virt_mem.read_addr_field(sys, eprocess, o.eproc_peb)?;
        let wow64 = if o.eproc_wow64 == 0 {
            Address(0)
        } else {
            self.virt_mem.read_addr_field(sys, eprocess, o.eproc_wow64)?
        };
        let section_base = self.virt_mem.read_addr_field(sys, eprocess, o.eproc_section_base)?;
        let exit_raw = match eprocess.checked_add(o.eproc_exit_status) {
            None => return Err(Error::OutOfBounds),
            Some(a) => self.virt_mem.virt_read_pointer(4, a)?,
        };
        let flink = self.virt_mem.read_addr_field(sys, eprocess, o.eproc_thread_list)?;
        let proc_arch = if wow64.0 != 0 && (sys == Architecture::X64 || sys == Architecture::X64La57) {
            Architecture::X86
        } else {
            sys
        };
        let view = VirtualDma::with_proc_arch(&self.virt_mem.phys, sys, proc_arch, dtb);
        let native = self.modules_of(&view, peb, sys)?;
        let wow = if wow64.0 != 0 {
            Some(Win32ModuleListInfo::with_peb(&view, wow64, proc_arch)?)
        } else {
            None
        };
        #[verifier::truncate]
        let pid32 = pid.0 as u32;
        #[verifier::truncate]
        let exit32 = exit_raw.0 as u32;
        #[verifier::truncate]
        let exit_status = exit32 as i32;
        Ok(
            Win32ProcessInfo {
                base: ProcessInfo { address: eprocess, pid: pid32, name, sys_arch: sys, proc_arch },
                dtb,
                section_base,
                exit_status,
                ethread: Address(wrapping_sub(flink.0, o.ethread_list_entry)),
                wow64,
                teb: None,
                teb_wow64: None,
                peb_native: peb,
                peb_wow64: if wow64.0 != 0 {
                    Some(wow64)
                } else {
                    None
                },
                module_info_native: native,
                module_info_wow64: wow,
            },
        )
    }

    /// The records of every process of the active process list that can be
    /// read, in list order; an entry whose record cannot be read is left out.
    #[verifier::rlimit(60)]
    pub fn process_info_list(&self) -> (r: Result<Vec<Win32ProcessInfo>, Error>)
        requires
            self.virt_mem.arch == self.sys_arch(),
        ensures
            match self.spec_process_addresses() {
                Ok(a) => r is Ok && spec_process_views(r->Ok_0@) == self.spec_infos_of(a),
                Err(e) => r is Err && r->Err_0 == e,
            },
            r is Ok ==> forall|i: int| 0 <= i < r->Ok_0@.len() ==> (#[trigger] r->Ok_0@[i]).wf(),
    {
        let addrs = self.process_address_list()?;
        let mut out: Vec<Win32ProcessInfo> = Vec::new();
        let mut k: usize = 0;
        assert(addrs@.skip(0) =~= addrs@);
        assert(spec_process_views(out@) =~= Seq::<Win32ProcessInfoView>::empty());
        while k < addrs.len()
            invariant
                k <= addrs@.len(),
                self.virt_mem.arch == self.sys_arch(),
                forall|i: int| 0 <= i < out@.len() ==> (#[trigger] out@[i]).wf(),
                self.spec_infos_of(addrs@) == spec_process_views(out@) + self.spec_infos_of(
                    addrs@.skip(k as int),
                ),
            decreases addrs@.len() - k,
        {
            let a = addrs[k];
            assert(addrs@.skip(k as int)[0] == a);
            assert(addrs@.skip(k as int).drop_first() =~= addrs@.skip(k + 1));
            let ghost before = spec_process_views(out@);
            match self.process_info_from_eprocess(a) {
                Ok(p) => {
                    out.push(p);
                    assert(spec_process_views(out@) =~= before + seq![p@]);
                    assert(before + (seq![p@] + self.spec_infos_of(addrs@.skip(k + 1)))
                        =~= spec_process_views(out@) + self.spec_infos_of(addrs@.skip(k + 1)));
                },
                Err(_) => {},
            }
            k = k + 1;
        }
        assert(addrs@.skip(k as int) =~= Seq::<Address>::empty());
        assert(spec_process_views(out@) + Seq::<Win32ProcessInfoView>::empty() =~= spec_process_views(
            out@,
        ));
        Ok(out)
    }

    /// Reads the 15-byte image name of the `EPROCESS` at `eprocess`, cut at
    /// its first zero; fails unless what is left is printable ASCII.
    fn read_image_name(&self, eprocess: Address) -> (r: Result<String, Error>)
        ensures
            match self.spec_image_name(eprocess) {
                Ok(t) => r is Ok && r->Ok_0@ == t,
                Err(e) => r == Err::<String, Error>(e),
            },
            match spec_checked_add(eprocess, self.offsets.eproc_name) {
                None => r == Err::<String, Error>(Error::OutOfBounds),
                Some(a) => match spec_read_bytes(
                    self.mem(),
                    self.virt_mem.arch,
                    self.virt_mem.dtb.0,
                    a.0,
                    IMAGE_FILE_NAME_LENGTH as nat,
                ) {
                    Err(e) => r == Err::<String, Error>(e),
                    Ok(b) => if spec_printable(spec_trim_nul(b)) {
                        r is Ok && r->Ok_0@ == utf16_lossy(spec_widen(spec_trim_nul(b)))
                    } else {
                        r == Err::<String, Error>(Error::Other)
                    },
                },
            },
    {
        let a = match eprocess.checked_add(self.offsets.eproc_name) {
            Some(a) => a,
            None => return Err(Error::OutOfBounds),
        };
        let b = self.virt_mem.virt_read_exact(a, IMAGE_FILE_NAME_LENGTH)?;
        let mut units: Vec<u16> = Vec::new();
        let mut i: usize = 0;
        assert(b@.take(0) =~= Seq::<u8>::empty());
        while i < b.len() && b[i] != 0
            invariant
                i <= b@.len(),
                spec_checked_add(eprocess, self.offsets.eproc_name) == Some(a),
                spec_read_bytes(
                    self.mem(),
                    self.virt_mem.arch,
                    self.virt_mem.dtb.0,
                    a.0,
                    IMAGE_FILE_NAME_LENGTH as nat,
                ) == Ok::<Seq<u8>, Error>(b@),
                forall|j: int| 0 <= j < i ==> b@[j] != 0,
                spec_printable(b@.take(i as int)),
                units@ == spec_widen(b@.take(i as int)),
            decreases b@.len() - i,
        {
            let c = b[i];
            if c < 0x20 || c > 0x7e {
                proof {
                    lemma_trim_split(b@, i as int + 1);
                    assert(spec_trim_nul(b@)[i as int] == b@.take(i as int + 1)[i as int]);
                }
                return Err(Error::Other);
            }
            units.push(c as u16);
            i = i + 1;
            assert(units@ =~= spec_widen(b@.take(i as int)));
            assert(spec_printable(b@.take(i as int)));
        }
        proof {
            lemma_trim_split(b@, i as int);
            if i < b@.len() {
                assert(b@.skip(i as int)[0] == 0);
            }
            assert(spec_trim_nul(b@.skip(i as int)) =~= Seq::<u8>::empty());
            assert(spec_trim_nul(b@) =~= b@.take(i as int));
        }
        Ok(decode_utf16_lossy(&units))
    }
}

/// Up to a prefix of non-zero bytes, trimming at the first zero keeps the
/// prefix whole.
proof fn lemma_trim_split(b: Seq<u8>, i: int)
    requires
        0 <= i <= b.len(),
        forall|j: int| 0 <= j < i ==> b[j] != 0,
    ensures
        spec_trim_nul(b) == b.take(i) + spec_trim_nul(b.skip(i)),
    decreases i,
{
    if i == 0 {
        assert(b.skip(0) =~= b);
        assert(b.take(0) + spec_trim_nul(b) =~= spec_trim_nul(b));
    } else {
        lemma_trim_split(b.drop_first(), i - 1);
        assert(b.drop_first().skip(i - 1) =~= b.skip(i));
        assert(seq![b[0]] + b.drop_first().take(i - 1) =~= b.take(i));
        assert(spec_trim_nul(b) =~= b.take(i) + spec_trim_nul(b.skip(i)));
    }
}

} // verus!
