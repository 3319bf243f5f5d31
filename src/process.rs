use vstd::prelude::*;

use crate::architecture::Architecture;
use crate::error::Error;
use crate::kernel::Win32Kernel;
use crate::list::{
    lemma_walk_outcome, list_entries, list_entries_callback, spec_calls_fit, spec_list_entries,
    spec_list_walk, spec_walk_outcome, spec_walk_result, AddressCallback, MAX_ITER_COUNT,
};
use crate::offsets::Win32ArchOffsets;
use crate::phys::PhysicalMemory;
use crate::translate::{spec_translate, virt_to_phys};
use crate::types::{spec_checked_add, Address};
use crate::virt::{spec_batch, spec_read_field, spec_read_unicode_field, TranslateChunk, VirtualDma};

verus! {

/// Exit status of a process.
pub type Win32ExitStatus = i32;

/// The exit status of a process that has not exited yet.
pub const EXIT_STATUS_STILL_ACTIVE: i32 = 259;

/// Length of `EPROCESS.ImageFileName`, in bytes.
pub const IMAGE_FILE_NAME_LENGTH: usize = 15;

/// A loaded module of a process.
pub struct ModuleInfo {
    /// Address of its loader entry.
    pub address: Address,
    /// Address of the `EPROCESS` of the process that loaded it.
    pub parent_process: Address,
    pub base: Address,
    pub size: usize,
    pub path: String,
    pub name: String,
    pub arch: Architecture,
}

/// What the contracts say of a `ModuleInfo`.
pub struct ModuleInfoView {
    pub address: Address,
    pub parent_process: Address,
    pub base: Address,
    pub size: usize,
    pub path: Seq<char>,
    pub name: Seq<char>,
    pub arch: Architecture,
}

impl ModuleInfo {
    pub open spec fn view(&self) -> ModuleInfoView {
        ModuleInfoView {
            address: self.address,
            parent_process: self.parent_process,
            base: self.base,
            size: self.size,
            path: self.path@,
            name: self.name@,
            arch: self.arch,
        }
    }
}

/// A loader entry and the architecture of the list that holds it.
#[derive(Clone, Copy, PartialEq, Eq, Structural, Debug)]
pub struct ModuleAddressInfo {
    pub address: Address,
    pub arch: Architecture,
}

/// What a module walk hands each entry to; `false` stops the walk of that list.
pub trait ModuleAddressCallback {
    /// Every call so far: the entry handed on and the answer given.
    spec fn calls(&self) -> Seq<(ModuleAddressInfo, bool)>;

    fn call(&mut self, info: ModuleAddressInfo) -> (r: bool)
        ensures
            final(self).calls() == old(self).calls().push((info, r)),
    ;
}

/// The calls that a collecting callback holding `v` has seen: each answered `true`.
pub open spec fn spec_collected_infos(v: Seq<ModuleAddressInfo>) -> Seq<(ModuleAddressInfo, bool)> {
    v.map_values(|a: ModuleAddressInfo| (a, true))
}

impl ModuleAddressCallback for Vec<ModuleAddressInfo> {
    open spec fn calls(&self) -> Seq<(ModuleAddressInfo, bool)> {
        spec_collected_infos(self@)
    }

    fn call(&mut self, info: ModuleAddressInfo) -> (r: bool) {
        self.push(info);
        assert(spec_collected_infos(self@) =~= spec_collected_infos(old(self)@).push((info, true)));
        true
    }
}

/// The walk of the module list `info` of architecture `arch`, each entry
/// tagged with `arch`.
pub open spec fn spec_tagged_walk(
    mem: Seq<u8>,
    varch: Architecture,
    dtb: u64,
    info: Win32ModuleListInfo,
    arch: Architecture,
) -> (Seq<ModuleAddressInfo>, Option<Error>) {
    let w = spec_list_walk(mem, varch, dtb, arch.spec_pointer_width(), info.module_base.0);
    (spec_tagged(w.0, arch), w.1)
}

/// Whether the calls `calls` fit walks of the lists of `lists`, one after the
/// other, where the walk of each list made the next `cuts[i]` calls: each walk
/// fits its list as `spec_calls_fit` says, a walk that fails ends it all with
/// its error as `r`, and `r` is success where every walk ended well.
pub open spec fn spec_lists_fit(
    mem: Seq<u8>,
    varch: Architecture,
    dtb: u64,
    lists: Seq<(Win32ModuleListInfo, Architecture)>,
    calls: Seq<(ModuleAddressInfo, bool)>,
    cuts: Seq<nat>,
    r: Result<(), Error>,
) -> bool
    decreases lists.len(),
{
    if lists.len() == 0 {
        calls.len() == 0 && cuts.len() == 0 && r == Ok::<(), Error>(())
    } else {
        let out = spec_tagged_walk(mem, varch, dtb, lists[0].0, lists[0].1);
        &&& cuts.len() > 0
        &&& cuts[0] <= calls.len()
        &&& spec_calls_fit(calls.take(cuts[0] as int), out)
        &&& match spec_walk_result(calls.take(cuts[0] as int), out) {
            Err(e) => cuts[0] == calls.len() && cuts.len() == 1 && r == Err::<(), Error>(e),
            Ok(_) => spec_lists_fit(
                mem,
                varch,
                dtb,
                lists.drop_first(),
                calls.skip(cuts[0] as int),
                cuts.drop_first(),
                r,
            ),
        }
    }
}

/// Walks the list whose head is at `head` and hands each entry, tagged with
/// `arch`, to `out` until it returns `false` or the list ends.
fn walk_tagged<P: PhysicalMemory, C: ModuleAddressCallback>(
    mem: &VirtualDma<P>,
    info: Win32ModuleListInfo,
    arch: Architecture,
    out: &mut C,
) -> (r: Result<(), Error>)
    ensures
        ({
            let w = spec_tagged_walk(mem.mem(), mem.arch, mem.dtb.0, info, arch);
            let before = old(out).calls();
            let after = final(out).calls();
            let new = after.skip(before.len() as int);
            &&& after.len() >= before.len()
            &&& after.take(before.len() as int) == before
            &&& spec_calls_fit(new, w)
            &&& r == spec_walk_result(new, w)
        }),
{
    let width = arch.pointer_width();
    let head = info.module_base;
    let ghost before = out.calls();
    let ghost raw = spec_list_walk(mem.mem(), mem.arch, mem.dtb.0, width as nat, head.0);
    proof {
        lemma_walk_outcome(mem.mem(), mem.arch, mem.dtb.0, width as nat, head.0, head.0, MAX_ITER_COUNT as nat);
    }
    let mut cur = head;
    let mut fuel: usize = MAX_ITER_COUNT;
    assert(out.calls().skip(before.len() as int) =~= Seq::<(ModuleAddressInfo, bool)>::empty());
    assert(out.calls().take(before.len() as int) =~= before);
    while fuel > 0
        invariant
            width == 4 || width == 8,
            width == arch.spec_pointer_width(),
            head == info.module_base,
            fuel <= MAX_ITER_COUNT,
            before == old(out).calls(),
            raw == spec_list_walk(mem.mem(), mem.arch, mem.dtb.0, width as nat, head.0),
            raw.0.len() <= MAX_ITER_COUNT,
            out.calls().len() == before.len() + (MAX_ITER_COUNT - fuel),
            out.calls().len() - before.len() <= raw.0.len(),
            out.calls().take(before.len() as int) == before,
            ({
                let new = out.calls().skip(before.len() as int);
                let rest = spec_walk_outcome(mem.mem(), mem.arch, mem.dtb.0, width as nat, head.0, cur.0, fuel as nat);
                &&& raw.0 == raw.0.take(new.len() as int) + rest.0
                &&& raw.1 == rest.1
                &&& forall|i: int| 0 <= i < new.len() ==> (#[trigger] new[i]).0
                    == (ModuleAddressInfo { address: raw.0[i], arch }) && new[i].1
            }),
        decreases fuel,
    {
        let ghost calls0 = out.calls();
        let ghost rest = spec_walk_outcome(mem.mem(), mem.arch, mem.dtb.0, width as nat, head.0, cur.0, fuel as nat);
        let next = match mem.virt_read_pointer(width, cur) {
            Ok(n) => n,
            Err(e) => {
                assert(raw.0 =~= raw.0.take(calls0.len() - before.len()));
                return Err(e);
            },
        };
        if next.0 == 0 || next.0 & 7 != 0 || next.0 == head.0 {
            assert(raw.0 =~= raw.0.take(calls0.len() - before.len()));
            return Ok(());
        }
        let ghost k = calls0.len() - before.len();
        let ghost rest2 = spec_walk_outcome(mem.mem(), mem.arch, mem.dtb.0, width as nat, head.0, next.0, (fuel - 1) as nat);
        assert(rest.0 == seq![next] + rest2.0);
        assert(raw.0[k] == next);
        let go = out.call(ModuleAddressInfo { address: next, arch });
        proof {
            let new = out.calls().skip(before.len() as int);
            assert(new =~= calls0.skip(before.len() as int).push((ModuleAddressInfo { address: next, arch }, go)));
            assert(out.calls().take(before.len() as int) =~= calls0.take(before.len() as int));
            assert(raw.0 =~= raw.0.take(k + 1) + rest2.0);
        }
        if !go {
            return Ok(());
        }
        cur = next;
        fuel = fuel - 1;
    }
    assert(raw.0 =~= raw.0.take(MAX_ITER_COUNT as int));
    Ok(())
}

/// The size field of a loader entry, read as a pointer and cut to `usize`.
#[verifier::truncate]
pub open spec fn spec_size_of(v: u64) -> usize {
    v as usize
}

/// The module list of one architecture of a process: the address of the head
/// of its `InLoadOrderModuleList`, and the layout of its loader structures.
#[derive(Clone, Copy, PartialEq, Eq, Structural, Debug)]
pub struct Win32ModuleListInfo {
    pub module_base: Address,
    pub offsets: Win32ArchOffsets,
}

/// The module list info of the process whose PEB is at `peb`.
pub open spec fn spec_with_peb(
    mem: Seq<u8>,
    varch: Architecture,
    dtb: u64,
    peb: u64,
    arch: Architecture,
) -> Result<Win32ModuleListInfo, Error> {
    let offsets = Win32ArchOffsets::spec_from(arch);
    match spec_read_field(mem, varch, dtb, arch.spec_pointer_width(), peb, offsets.peb_ldr) {
        Err(e) => Err(e),
        Ok(ldr) => match spec_checked_add(Address(ldr), offsets.ldr_list) {
            None => Err(Error::OutOfBounds),
            Some(head) => Ok(Win32ModuleListInfo { module_base: head, offsets }),
        },
    }
}

/// The module record read from the loader entry at `entry`.
#[verifier::opaque]
pub open spec fn spec_module_info_from_entry(
    mem: Seq<u8>,
    varch: Architecture,
    dtb: u64,
    offsets: Win32ArchOffsets,
    entry: u64,
    parent: u64,
    arch: Architecture,
) -> Result<ModuleInfoView, Error> {
    let w = arch.spec_pointer_width();
    match spec_read_field(mem, varch, dtb, w, entry, offsets.ldr_data_base) {
        Err(e) => Err(e),
        Ok(base) => match spec_read_field(mem, varch, dtb, w, entry, offsets.ldr_data_size) {
            Err(e) => Err(e),
            Ok(size) => match spec_read_unicode_field(
                mem,
                varch,
                dtb,
                w,
                entry,
                offsets.ldr_data_full_name,
            ) {
                Err(e) => Err(e),
                Ok(path) => match spec_read_unicode_field(
                    mem,
                    varch,
                    dtb,
                    w,
                    entry,
                    offsets.ldr_data_base_name,
                ) {
                    Err(e) => Err(e),
                    Ok(name) => Ok(
                        ModuleInfoView {
                            address: Address(entry),
                            parent_process: Address(parent),
                            base: Address(base),
                            size: spec_size_of(size),
                            path,
                            name,
                            arch,
                        },
                    ),
                },
            },
        },
    }
}

impl Win32ModuleListInfo {
    /// Finds the module list of the process whose PEB is at `peb`: reads
    /// `PEB.Ldr`, and takes the list head inside the loader data.
    pub fn with_peb<P: PhysicalMemory>(mem: &VirtualDma<P>, peb: Address, arch: Architecture) -> (r:
        Result<Win32ModuleListInfo, Error>)
        ensures
            r == spec_with_peb(mem.mem(), mem.arch, mem.dtb.0, peb.0, arch),
    {
        let offsets = Win32ArchOffsets::from(arch);
        let peb_ldr = mem.read_addr_field(arch, peb, offsets.peb_ldr)?;
        match peb_ldr.checked_add(offsets.ldr_list) {
            None => Err(Error::OutOfBounds),
            Some(module_base) => Self::with_base(module_base, arch),
        }
    }

    /// The module list whose head is at `module_base`.
    pub fn with_base(module_base: Address, arch: Architecture) -> (r: Result<
        Win32ModuleListInfo,
        Error,
    >)
        ensures
            r == Ok::<Win32ModuleListInfo, Error>(
                Win32ModuleListInfo { module_base, offsets: Win32ArchOffsets::spec_from(arch) },
            ),
    {
        let offsets = Win32ArchOffsets::from(arch);
        Ok(Win32ModuleListInfo { module_base, offsets })
    }

    pub fn module_base(&self) -> (r: Address)
        ensures
            r == self.module_base,
    {
        self.module_base
    }

    /// The loader entries of the list, in load order; the head is not one of them.
    pub fn module_entry_list<P: PhysicalMemory>(&self, mem: &VirtualDma<P>, arch: Architecture) -> (r:
        Result<Vec<Address>, Error>)
        ensures
            match spec_list_entries(
                mem.mem(),
                mem.arch,
                mem.dtb.0,
                arch.spec_pointer_width(),
                self.module_base.0,
            ) {
                Ok(s) => r is Ok && r->Ok_0@ == s,
                Err(e) => r == Err::<Vec<Address>, Error>(e),
            },
    {
        list_entries(mem, arch.pointer_width(), self.module_base)
    }

    /// Hands each loader entry, in load order, to `callback` until it returns
    /// `false` or the list ends; a link that cannot be read first ends the
    /// walk with its error.
    pub fn module_entry_list_callback<P: PhysicalMemory, C: AddressCallback>(
        &self,
        mem: &VirtualDma<P>,
        arch: Architecture,
        callback: &mut C,
    ) -> (r: Result<(), Error>)
        ensures
            ({
                let out = spec_list_walk(
                    mem.mem(),
                    mem.arch,
                    mem.dtb.0,
                    arch.spec_pointer_width(),
                    self.module_base.0,
                );
                let before = old(callback).calls();
                let after = final(callback).calls();
                let new = after.skip(before.len() as int);
                &&& after.len() >= before.len()
                &&& after.take(before.len() as int) == before
                &&& new.len() <= MAX_ITER_COUNT
                &&& spec_calls_fit(new, out)
                &&& r == spec_walk_result(new, out)
            }),
    {
        list_entries_callback(mem, arch.pointer_width(), self.module_base, callback)
    }

    /// Reads the module record of the loader entry at `entry`.
    pub fn module_info_from_entry<P: PhysicalMemory>(
        &self,
        entry: Address,
        parent_eprocess: Address,
        mem: &VirtualDma<P>,
        arch: Architecture,
    ) -> (r: Result<ModuleInfo, Error>)
        ensures
            match spec_module_info_from_entry(
                mem.mem(),
                mem.arch,
                mem.dtb.0,
                self.offsets,
                entry.0,
                parent_eprocess.0,
                arch,
            ) {
                Ok(m) => r is Ok && r->Ok_0@ == m,
                Err(e) => r is Err && r->Err_0 == e,
            },
    {
        proof {
            reveal(spec_module_info_from_entry);
        }
        let base = mem.read_addr_field(arch, entry, self.offsets.ldr_data_base)?;
        let size_raw = mem.read_addr_field(arch, entry, self.offsets.ldr_data_size)?;
        #[verifier::truncate]
        let size = size_raw.0 as usize;
        let path = mem.read_unicode_field(arch, entry, self.offsets.ldr_data_full_name)?;
        let name = mem.read_unicode_field(arch, entry, self.offsets.ldr_data_base_name)?;
        Ok(
            ModuleInfo {
                address: entry,
                parent_process: parent_eprocess,
                base,
                size,
                path,
                name,
                arch,
            },
        )
    }
}

/// What every process has: its `EPROCESS` address, id, short name, and the
/// architectures of the system and of the process's own code.
#[derive(Clone, Debug)]
pub struct ProcessInfo {
    pub address: Address,
    pub pid: u32,
    pub name: String,
    pub sys_arch: Architecture,
    pub proc_arch: Architecture,
}

/// A process as the kernel's `EPROCESS` describes it.
#[derive(Clone, Debug)]
pub struct Win32ProcessInfo {
    pub base: ProcessInfo,
    pub dtb: Address,
    pub section_base: Address,
    pub exit_status: Win32ExitStatus,
    pub ethread: Address,
    /// Null unless the process runs 32-bit code on a 64-bit system.
    pub wow64: Address,
    pub teb: Option<Address>,
    pub teb_wow64: Option<Address>,
    pub peb_native: Address,
    pub peb_wow64: Option<Address>,
    pub module_info_native: Win32ModuleListInfo,
    pub module_info_wow64: Option<Win32ModuleListInfo>,
}

/// What the contracts say of a `Win32ProcessInfo`.
pub struct Win32ProcessInfoView {
    pub address: Address,
    pub pid: u32,
    pub name: Seq<char>,
    pub sys_arch: Architecture,
    pub proc_arch: Architecture,
    pub dtb: Address,
    pub section_base: Address,
    pub exit_status: Win32ExitStatus,
    pub ethread: Address,
    pub wow64: Address,
    pub teb: Option<Address>,
    pub teb_wow64: Option<Address>,
    pub peb_native: Address,
    pub peb_wow64: Option<Address>,
    pub module_info_native: Win32ModuleListInfo,
    pub module_info_wow64: Option<Win32ModuleListInfo>,
}

/// The translator of one address space: its paging mode and top table.
#[derive(Clone, Copy, PartialEq, Eq, Structural, Debug)]
pub struct Win32VirtualTranslate {
    pub sys_arch: Architecture,
    pub dtb: Address,
}

impl Win32VirtualTranslate {
    pub fn new(sys_arch: Architecture, dtb: Address) -> (r: Self)
        ensures
            r.sys_arch == sys_arch,
            r.dtb == dtb,
    {
        Win32VirtualTranslate { sys_arch, dtb }
    }

    /// Translates `va` of this address space.
    pub fn virt_to_phys<P: PhysicalMemory>(&self, mem: &P, va: Address) -> (r: Result<u64, Error>)
        ensures
            r == spec_translate(mem.phys_view(), self.sys_arch, self.dtb.0, va.0),
    {
        virt_to_phys(mem, self.sys_arch, self.dtb.0, va.0)
    }

    /// Translates each request `(va, len)` of `reqs` of this address space,
    /// split at page boundaries; the chunks come out request by request.
    pub fn virt_translate_list<P: PhysicalMemory>(&self, mem: &P, reqs: &Vec<(Address, usize)>) -> (r:
        Vec<TranslateChunk>)
        requires
            forall|i: int| 0 <= i < reqs@.len() ==> #[trigger] reqs@[i].0.0 + reqs@[i].1 <= u64::MAX + 1,
        ensures
            r@ == spec_batch(mem.phys_view(), self.sys_arch, self.dtb.0, reqs@, 0),
    {
        let view = VirtualDma::new(mem, self.sys_arch, self.dtb);
        view.virt_translate_list(reqs)
    }
}

impl Win32ProcessInfo {
    pub open spec fn view(&self) -> Win32ProcessInfoView {
        Win32ProcessInfoView {
            address: self.base.address,
            pid: self.base.pid,
            name: self.base.name@,
            sys_arch: self.base.sys_arch,
            proc_arch: self.base.proc_arch,
            dtb: self.dtb,
            section_base: self.section_base,
            exit_status: self.exit_status,
            ethread: self.ethread,
            wow64: self.wow64,
            teb: self.teb,
            teb_wow64: self.teb_wow64,
            peb_native: self.peb_native,
            peb_wow64: self.peb_wow64,
            module_info_native: self.module_info_native,
            module_info_wow64: self.module_info_wow64,
        }
    }

    /// A WoW64 process has a 32-bit module list and only such a process has one.
    pub open spec fn wf(&self) -> bool {
        self.module_info_wow64.is_some() == (self.wow64.0 != 0)
    }

    pub fn wow64(&self) -> (r: Address)
        ensures
            r == self.wow64,
    {
        self.wow64
    }

    /// The PEB of the process's own code: the 32-bit one of a WoW64 process.
    pub fn peb(&self) -> (r: Address)
        ensures
            r == match self.peb_wow64 {
                Some(p) => p,
                None => self.peb_native,
            },
    {
        if let Some(peb) = self.peb_wow64 {
            peb
        } else {
            self.peb_native
        }
    }

    pub fn peb_native(&self) -> (r: Address)
        ensures
            r == self.peb_native,
    {
        self.peb_native
    }

    pub fn peb_wow64(&self) -> (r: Option<Address>)
        ensures
            r == self.peb_wow64,
    {
        self.peb_wow64
    }

    /// The module list of the process's own architecture: the WoW64 one for a
    /// WoW64 process, else the native one.
    pub fn module_info(&self) -> (r: Win32ModuleListInfo)
        requires
            self.wf(),
        ensures
            self.wow64.0 != 0 ==> Some(r) == self.module_info_wow64,
            self.wow64.0 == 0 ==> r == self.module_info_native,
    {
        if !self.wow64.is_null() {
            self.module_info_wow64.unwrap()
        } else {
            self.module_info_native
        }
    }

    pub fn module_info_native(&self) -> (r: Win32ModuleListInfo)
        ensures
            r == self.module_info_native,
    {
        self.module_info_native
    }

    pub fn module_info_wow64(&self) -> (r: Option<Win32ModuleListInfo>)
        ensures
            r == self.module_info_wow64,
    {
        self.module_info_wow64
    }

    /// The translator of the process's address space.
    pub fn translator(&self) -> (r: Win32VirtualTranslate)
        ensures
            r.sys_arch == self.base.sys_arch,
            r.dtb == self.dtb,
    {
        Win32VirtualTranslate::new(self.base.sys_arch, self.dtb)
    }

    pub fn address(&self) -> (r: Address)
        ensures
            r == self.base.address,
    {
        self.base.address
    }

    pub fn pid(&self) -> (r: u32)
        ensures
            r == self.base.pid,
    {
        self.base.pid
    }

    pub fn name(&self) -> (r: String)
        ensures
            r@ == self.base.name@,
    {
        self.base.name.clone()
    }

    pub fn sys_arch(&self) -> (r: Architecture)
        ensures
            r == self.base.sys_arch,
    {
        self.base.sys_arch
    }

    pub fn proc_arch(&self) -> (r: Architecture)
        ensures
            r == self.base.proc_arch,
    {
        self.base.proc_arch
    }
}

/// A process together with a view of its address space.
#[derive(Clone, Debug)]
pub struct Win32Process<P> {
    pub virt_mem: VirtualDma<P>,
    pub proc_info: Win32ProcessInfo,
}

impl<P: PhysicalMemory> Win32Process<P> {
    /// Takes over the kernel's physical memory for a view of the process.
    pub fn with_kernel(kernel: Win32Kernel<P>, proc_info: Win32ProcessInfo) -> (r: Self)
        ensures
            r.virt_mem.phys == kernel.virt_mem.phys,
            r.virt_mem.arch == proc_info.base.sys_arch,
            r.virt_mem.proc_arch == proc_info.base.proc_arch,
            r.virt_mem.dtb == proc_info.dtb,
            r.proc_info == proc_info,
    {
        let phys = kernel.virt_mem.destroy();
        let virt_mem = VirtualDma::with_proc_arch(
            phys,
            proc_info.base.sys_arch,
            proc_info.base.proc_arch,
            proc_info.dtb,
        );
        Win32Process { virt_mem, proc_info }
    }

    /// Gives the physical memory back.
    pub fn destroy(self) -> (r: P)
        ensures
            r == self.virt_mem.phys,
    {
        self.virt_mem.destroy()
    }

    pub fn virt_mem(&self) -> (r: &VirtualDma<P>)
        ensures
            r == &self.virt_mem,
    {
        &self.virt_mem
    }

    pub fn info(&self) -> (r: &ProcessInfo)
        ensures
            r == &self.proc_info.base,
    {
        &self.proc_info.base
    }
}

impl<'a, Q: PhysicalMemory> Win32Process<&'a Q> {
    /// A view of the process that borrows the kernel's physical memory.
    pub fn with_kernel_ref(kernel: &'a Win32Kernel<Q>, proc_info: Win32ProcessInfo) -> (r: Self)
        ensures
            r.virt_mem.phys == &kernel.virt_mem.phys,
            r.virt_mem.arch == proc_info.base.sys_arch,
            r.virt_mem.proc_arch == proc_info.base.proc_arch,
            r.virt_mem.dtb == proc_info.dtb,
            r.proc_info == proc_info,
    {
        let virt_mem = VirtualDma::with_proc_arch(
            &kernel.virt_mem.phys,
            proc_info.base.sys_arch,
            proc_info.base.proc_arch,
            proc_info.dtb,
        );
        Win32Process { virt_mem, proc_info }
    }
}

/// The views of the records of `v`.
pub open spec fn spec_views(v: Seq<ModuleInfo>) -> Seq<ModuleInfoView> {
    v.map_values(|m: ModuleInfo| m@)
}

/// The entries of `entries`, each tagged with `arch`.
pub open spec fn spec_tagged(entries: Seq<Address>, arch: Architecture) -> Seq<ModuleAddressInfo> {
    entries.map_values(|a: Address| ModuleAddressInfo { address: a, arch })
}

/// The tagged entries of each list of `lists`, one list after the other.
pub open spec fn spec_addresses_of(
    mem: Seq<u8>,
    varch: Architecture,
    dtb: u64,
    lists: Seq<(Win32ModuleListInfo, Architecture)>,
) -> Result<Seq<ModuleAddressInfo>, Error>
    decreases lists.len(),
{
    if lists.len() == 0 {
        Ok(Seq::empty())
    } else {
        let (info, arch) = lists[0];
        match spec_list_entries(mem, varch, dtb, arch.spec_pointer_width(), info.module_base.0) {
            Err(e) => Err(e),
            Ok(s) => match spec_addresses_of(mem, varch, dtb, lists.drop_first()) {
                Err(e) => Err(e),
                Ok(rest) => Ok(spec_tagged(s, arch) + rest),
            },
        }
    }
}

/// The first module of `l` whose base is `base`.
pub open spec fn spec_first_with_base(l: Seq<ModuleInfoView>, base: Address) -> Option<
    ModuleInfoView,
>
    decreases l.len(),
{
    if l.len() == 0 {
        None
    } else if l[0].base == base {
        Some(l[0])
    } else {
        spec_first_with_base(l.drop_first(), base)
    }
}

/// The first module of `l` whose name is `name`.
pub open spec fn spec_first_with_name(l: Seq<ModuleInfoView>, name: Seq<char>) -> Option<
    ModuleInfoView,
>
    decreases l.len(),
{
    if l.len() == 0 {
        None
    } else if l[0].name == name {
        Some(l[0])
    } else {
        spec_first_with_name(l.drop_first(), name)
    }
}

/// Whether two strings hold the same characters.
fn str_eq(a: &str, b: &str) -> (r: bool)
    ensures
        r == (a@ == b@),
{
    let n = a.unicode_len();
    if n != b.unicode_len() {
        return false;
    }
    let mut i: usize = 0;
    while i < n
        invariant
            n == a@.len(),
            n == b@.len(),
            i <= n,
            forall|j: int| 0 <= j < i ==> a@[j] == b@[j],
        decreases n - i,
    {
        if a.get_char(i) != b.get_char(i) {
            return false;
        }
        i = i + 1;
    }
    assert(a@ =~= b@);
    true
}

impl<P: PhysicalMemory> Win32Process<P> {
    pub open spec fn mem(&self) -> Seq<u8> {
        self.virt_mem.mem()
    }

    /// The entries of the module list `info` of architecture `arch`.
    pub open spec fn spec_entries(&self, info: Win32ModuleListInfo, arch: Architecture) -> Result<
        Seq<Address>,
        Error,
    > {
        spec_list_entries(
            self.mem(),
            self.virt_mem.arch,
            self.virt_mem.dtb.0,
            arch.spec_pointer_width(),
            info.module_base.0,
        )
    }

    /// The module lists whose architecture is `target` (all of them for `None`):
    /// the native one, then the WoW64 one where there is one.
    pub open spec fn spec_selected_lists(&self, target: Option<Architecture>) -> Seq<
        (Win32ModuleListInfo, Architecture),
    > {
        let sys = self.proc_info.base.sys_arch;
        let pa = self.proc_info.base.proc_arch;
        let native = if target is None || target == Some(sys) {
            seq![(self.proc_info.module_info_native, sys)]
        } else {
            Seq::empty()
        };
        let wow = match self.proc_info.module_info_wow64 {
            Some(i) => if target is None || target == Some(pa) {
                seq![(i, pa)]
            } else {
                Seq::empty()
            },
            None => Seq::empty(),
        };
        native + wow
    }

    /// The module record of the loader entry at `address` in the list of `arch`.
    pub open spec fn spec_module_info_by_address(&self, address: Address, arch: Architecture) -> Result<
        ModuleInfoView,
        Error,
    > {
        let info = if arch == self.proc_info.base.sys_arch {
            Some(self.proc_info.module_info_native)
        } else if arch == self.proc_info.base.proc_arch {
            self.proc_info.module_info_wow64
        } else {
            None
        };
        match info {
            None => Err(Error::InvalidArchitecture),
            Some(i) => spec_module_info_from_entry(
                self.mem(),
                self.virt_mem.arch,
                self.virt_mem.dtb.0,
                i.offsets,
                address.0,
                self.proc_info.base.address.0,
                arch,
            ),
        }
    }

    /// The records of the entries of `addrs` that can be read, in order.
    pub open spec fn spec_infos_of(&self, addrs: Seq<ModuleAddressInfo>) -> Seq<ModuleInfoView>
        decreases addrs.len(),
    {
        if addrs.len() == 0 {
            Seq::empty()
        } else {
            let rest = self.spec_infos_of(addrs.drop_first());
            match self.spec_module_info_by_address(addrs[0].address, addrs[0].arch) {
                Ok(m) => seq![m] + rest,
                Err(_) => rest,
            }
        }
    }

    /// Every module of the process whose record can be read: the native list,
    /// then the WoW64 one.
    pub open spec fn spec_module_list(&self) -> Result<Seq<ModuleInfoView>, Error> {
        match spec_addresses_of(
            self.mem(),
            self.virt_mem.arch,
            self.virt_mem.dtb.0,
            self.spec_selected_lists(None),
        ) {
            Ok(addrs) => Ok(self.spec_infos_of(addrs)),
            Err(e) => Err(e),
        }
    }

    /// The loader entries of the process's own architecture: the WoW64 list
    /// where there is one, else the native list.
    pub fn module_entry_list(&self) -> (r: Result<Vec<Address>, Error>)
        ensures
            ({
                let (info, arch) = match self.proc_info.module_info_wow64 {
                    Some(i) => (i, self.proc_info.base.proc_arch),
                    None => (self.proc_info.module_info_native, self.proc_info.base.sys_arch),
                };
                match self.spec_entries(info, arch) {
                    Ok(s) => r is Ok && r->Ok_0@ == s,
                    Err(e) => r == Err::<Vec<Address>, Error>(e),
                }
            }),
    {
        let (info, arch) = if let Some(info_wow64) = self.proc_info.module_info_wow64 {
            (info_wow64, self.proc_info.base.proc_arch)
        } else {
            (self.proc_info.module_info_native, self.proc_info.base.sys_arch)
        };
        info.module_entry_list(&self.virt_mem, arch)
    }

    /// The loader entries of the native list.
    pub fn module_entry_list_native(&self) -> (r: Result<Vec<Address>, Error>)
        ensures
            match self.spec_entries(
                self.proc_info.module_info_native,
                self.proc_info.base.sys_arch,
            ) {
                Ok(s) => r is Ok && r->Ok_0@ == s,
                Err(e) => r == Err::<Vec<Address>, Error>(e),
            },
    {
        let (info, arch) = (self.proc_info.module_info_native, self.proc_info.base.sys_arch);
        info.module_entry_list(&self.virt_mem, arch)
    }

    /// The loader entries of the WoW64 list; fails where the process has none.
    pub fn module_entry_list_wow64(&self) -> (r: Result<Vec<Address>, Error>)
        ensures
            match self.proc_info.module_info_wow64 {
                None => r == Err::<Vec<Address>, Error>(Error::Other),
                Some(i) => match self.spec_entries(i, self.proc_info.base.proc_arch) {
                    Ok(s) => r is Ok && r->Ok_0@ == s,
                    Err(e) => r == Err::<Vec<Address>, Error>(e),
                },
            },
    {
        let info = match self.proc_info.module_info_wow64 {
            Some(i) => i,
            None => return Err(Error::Other),
        };
        info.module_entry_list(&self.virt_mem, self.proc_info.base.proc_arch)
    }

    /// The module lists whose architecture is `target`, as in `spec_selected_lists`.
    fn selected_lists(&self, target: Option<Architecture>) -> (r: Vec<
        (Win32ModuleListInfo, Architecture),
    >)
        ensures
            r@ == self.spec_selected_lists(target),
    {
        let sys = self.proc_info.base.sys_arch;
        let pa = self.proc_info.base.proc_arch;
        let mut out: Vec<(Win32ModuleListInfo, Architecture)> = Vec::new();
        let take_native = match target {
            None => true,
            Some(t) => t == sys,
        };
        if take_native {
            out.push((self.proc_info.module_info_native, sys));
        }
        if let Some(i) = self.proc_info.module_info_wow64 {
            let take_wow = match target {
                None => true,
                Some(t) => t == pa,
            };
            if take_wow {
                out.push((i, pa));
            }
        }
        assert(out@ =~= self.spec_selected_lists(target));
        out
    }

    /// Walks the lists of `module_infos` in order and hands each entry,
    /// tagged with its list's architecture, to `out`; `false` from `out` ends
    /// that list's walk. A list whose walk fails ends it all with its error.
    pub fn module_address_list_with_infos_callback<C: ModuleAddressCallback>(
        &self,
        module_infos: &Vec<(Win32ModuleListInfo, Architecture)>,
        out: &mut C,
    ) -> (r: Result<(), Error>)
        ensures
            final(out).calls().len() >= old(out).calls().len(),
            final(out).calls().take(old(out).calls().len() as int) == old(out).calls(),
            exists|cuts: Seq<nat>|
                spec_lists_fit(
                    self.mem(),
                    self.virt_mem.arch,
                    self.virt_mem.dtb.0,
                    module_infos@,
                    final(out).calls().skip(old(out).calls().len() as int),
                    cuts,
                    r,
                ),
    {
        let ghost lists = module_infos@;
        let ghost mem = self.mem();
        let ghost varch = self.virt_mem.arch;
        let ghost dtb = self.virt_mem.dtb.0;
        let ghost before = out.calls();
        let ghost cuts: Seq<nat> = Seq::empty();
        let mut k: usize = 0;
        assert(lists.skip(0) =~= lists);
        assert(out.calls().skip(before.len() as int) =~= Seq::<(ModuleAddressInfo, bool)>::empty());
        assert(out.calls().take(before.len() as int) =~= before);
        assert forall|rc: Seq<(ModuleAddressInfo, bool)>, rcut: Seq<nat>, rr: Result<(), Error>|
            #[trigger] spec_lists_fit(mem, varch, dtb, lists.skip(0), rc, rcut, rr) implies spec_lists_fit(
            mem,
            varch,
            dtb,
            lists,
            out.calls().skip(before.len() as int) + rc,
            cuts + rcut,
            rr,
        ) by {
            assert(out.calls().skip(before.len() as int) + rc =~= rc);
            assert(cuts + rcut =~= rcut);
        }
        while k < module_infos.len()
            invariant
                k <= lists.len(),
                lists == module_infos@,
                mem == self.mem(),
                varch == self.virt_mem.arch,
                dtb == self.virt_mem.dtb.0,
                before == old(out).calls(),
                out.calls().len() >= before.len(),
                out.calls().take(before.len() as int) == before,
                forall|rc: Seq<(ModuleAddressInfo, bool)>, rcut: Seq<nat>, rr: Result<(), Error>|
                    #[trigger] spec_lists_fit(mem, varch, dtb, lists.skip(k as int), rc, rcut, rr)
                        ==> spec_lists_fit(
                        mem,
                        varch,
                        dtb,
                        lists,
                        out.calls().skip(before.len() as int) + rc,
                        cuts + rcut,
                        rr,
                    ),
            decreases lists.len() - k,
        {
            let (info, arch) = module_infos[k];
            let ghost calls0 = out.calls();
            let ghost done = calls0.skip(before.len() as int);
            let res = walk_tagged(&self.virt_mem, info, arch, out);
            let ghost seg = out.calls().skip(calls0.len() as int);
            let ghost n = seg.len();
            let ghost w = spec_tagged_walk(mem, varch, dtb, info, arch);
            proof {
                assert(lists.skip(k as int)[0] == (info, arch));
                assert(lists.skip(k as int).drop_first() =~= lists.skip(k + 1));
                assert(out.calls().skip(before.len() as int) =~= done + seg) by {
                    assert(out.calls().take(calls0.len() as int) == calls0);
                }
                assert(out.calls().take(before.len() as int) =~= before) by {
                    assert(out.calls().take(calls0.len() as int) == calls0);
                }
            }
            match res {
                Err(e) => {
                    proof {
                        let rc = seg;
                        let rcut = seq![n];
                        assert(rc.take(n as int) =~= seg);
                        assert(spec_lists_fit(mem, varch, dtb, lists.skip(k as int), rc, rcut, Err::<(), Error>(e)));
                        assert(done + rc =~= out.calls().skip(before.len() as int));
                    }
                    return Err(e);
                },
                Ok(()) => {
                    proof {
                        assert forall|rc: Seq<(ModuleAddressInfo, bool)>, rcut: Seq<nat>, rr: Result<(), Error>|
                            #[trigger] spec_lists_fit(mem, varch, dtb, lists.skip(k + 1), rc, rcut, rr) implies spec_lists_fit(
                            mem,
                            varch,
                            dtb,
                            lists,
                            out.calls().skip(before.len() as int) + rc,
                            cuts.push(n) + rcut,
                            rr,
                        ) by {
                            let src = seg + rc;
                            let scut = seq![n] + rcut;
                            assert(src.take(n as int) =~= seg);
                            assert(src.skip(n as int) =~= rc);
                            assert(scut.drop_first() =~= rcut);
                            assert(spec_lists_fit(mem, varch, dtb, lists.skip(k as int), src, scut, rr));
                            assert(done + src =~= out.calls().skip(before.len() as int) + rc);
                            assert(cuts + scut =~= cuts.push(n) + rcut);
                        }
                        cuts = cuts.push(n);
                    }
                },
            }
            k = k + 1;
        }
        proof {
            assert(lists.skip(k as int) =~= Seq::<(Win32ModuleListInfo, Architecture)>::empty());
            let e: Seq<(ModuleAddressInfo, bool)> = Seq::empty();
            let ec: Seq<nat> = Seq::empty();
            assert(spec_lists_fit(mem, varch, dtb, lists.skip(k as int), e, ec, Ok::<(), Error>(())));
            assert(out.calls().skip(before.len() as int) + e =~= out.calls().skip(before.len() as int));
            assert(cuts + ec =~= cuts);
        }
        Ok(())
    }

    /// Walks the module lists whose architecture is `target_arch` (all of
    /// them for `None`), the native one first, and hands each entry, tagged
    /// with its list's architecture, to `callback`, as
    /// `module_address_list_with_infos_callback` does.
    pub fn module_address_list_callback<C: ModuleAddressCallback>(
        &self,
        target_arch: Option<Architecture>,
        callback: &mut C,
    ) -> (r: Result<(), Error>)
        ensures
            final(callback).calls().len() >= old(callback).calls().len(),
            final(callback).calls().take(old(callback).calls().len() as int) == old(callback).calls(),
            exists|cuts: Seq<nat>|
                spec_lists_fit(
                    self.mem(),
                    self.virt_mem.arch,
                    self.virt_mem.dtb.0,
                    self.spec_selected_lists(target_arch),
                    final(callback).calls().skip(old(callback).calls().len() as int),
                    cuts,
                    r,
                ),
    {
        let infos = self.selected_lists(target_arch);
        self.module_address_list_with_infos_callback(&infos, callback)
    }

    /// Every module entry whose list has architecture `target_arch` (every
    /// entry for `None`), tagged with that architecture.
    pub fn module_address_list(&self, target_arch: Option<Architecture>) -> (r: Result<
        Vec<ModuleAddressInfo>,
        Error,
    >)
        ensures
            match spec_addresses_of(
                self.mem(),
                self.virt_mem.arch,
                self.virt_mem.dtb.0,
                self.spec_selected_lists(target_arch),
            ) {
                Ok(s) => r is Ok && r->Ok_0@ == s,
                Err(e) => r == Err::<Vec<ModuleAddressInfo>, Error>(e),
            },
    {
        let infos = self.selected_lists(target_arch);
        let ghost lists = infos@;
        let mut out: Vec<ModuleAddressInfo> = Vec::new();
        let mut k: usize = 0;
        assert(lists.skip(0) =~= lists);
        assert(out@ =~= Seq::<ModuleAddressInfo>::empty());
        while k < infos.len()
            invariant
                k <= lists.len(),
                lists == infos@,
                lists == self.spec_selected_lists(target_arch),
                spec_addresses_of(self.mem(), self.virt_mem.arch, self.virt_mem.dtb.0, lists)
                    == match spec_addresses_of(
                    self.mem(),
                    self.virt_mem.arch,
                    self.virt_mem.dtb.0,
                    lists.skip(k as int),
                ) {
                    Ok(rest) => Ok(out@ + rest),
                    Err(e) => Err::<Seq<ModuleAddressInfo>, Error>(e),
                },
            decreases lists.len() - k,
        {
            let (info, arch) = infos[k];
            assert(lists.skip(k as int)[0] == (info, arch));
            assert(lists.skip(k as int).drop_first() =~= lists.skip(k + 1));
            let entries = info.module_entry_list(&self.virt_mem, arch)?;
            let ghost before = out@;
            let mut j: usize = 0;
            while j < entries.len()
                invariant
                    j <= entries@.len(),
                    out@ == before + spec_tagged(entries@, arch).take(j as int),
                decreases entries.len() - j,
            {
                out.push(ModuleAddressInfo { address: entries[j], arch });
                j = j + 1;
                assert(out@ =~= before + spec_tagged(entries@, arch).take(j as int));
            }
            assert(spec_tagged(entries@, arch).take(j as int) =~= spec_tagged(entries@, arch));
            proof {
                match spec_addresses_of(
                    self.mem(),
                    self.virt_mem.arch,
                    self.virt_mem.dtb.0,
                    lists.skip(k + 1),
                ) {
                    Ok(rest) => {
                        assert(before + (spec_tagged(entries@, arch) + rest) =~= out@ + rest);
                    },
                    Err(_) => {},
                }
            }
            k = k + 1;
        }
        assert(lists.skip(k as int) =~= Seq::<(Win32ModuleListInfo, Architecture)>::empty());
        assert(out@ + Seq::<ModuleAddressInfo>::empty() =~= out@);
        Ok(out)
    }

    /// Reads the module record of the loader entry at `address` in the list of
    /// `architecture`: the native list for the system's architecture, the WoW64
    /// one for the process's.
    pub fn module_info_by_address(&self, address: Address, architecture: Architecture) -> (r:
        Result<ModuleInfo, Error>)
        ensures
            match self.spec_module_info_by_address(address, architecture) {
                Ok(m) => r is Ok && r->Ok_0@ == m,
                Err(e) => r is Err && r->Err_0 == e,
            },
    {
        let info = if architecture == self.proc_info.base.sys_arch {
            Some(self.proc_info.module_info_native)
        } else if architecture == self.proc_info.base.proc_arch {
            self.proc_info.module_info_wow64
        } else {
            None
        };
        match info {
            None => Err(Error::InvalidArchitecture),
            Some(i) => i.module_info_from_entry(
                address,
                self.proc_info.base.address,
                &self.virt_mem,
                architecture,
            ),
        }
    }

    /// The records of every module of the process that can be read: the
    /// native list, then the WoW64 one.
    #[verifier::rlimit(60)]
    pub fn module_list(&self) -> (r: Result<Vec<ModuleInfo>, Error>)
        ensures
            match self.spec_module_list() {
                Ok(l) => r is Ok && spec_views(r->Ok_0@) == l,
                Err(e) => r is Err && r->Err_0 == e,
            },
    {
        let addrs = self.module_address_list(None)?;
        let mut out: Vec<ModuleInfo> = Vec::new();
        let mut k: usize = 0;
        assert(addrs@.skip(0) =~= addrs@);
        assert(spec_views(out@) =~= Seq::<ModuleInfoView>::empty());
        while k < addrs.len()
            invariant
                k <= addrs@.len(),
                self.spec_infos_of(addrs@) == spec_views(out@)
                    + self.spec_infos_of(addrs@.skip(k as int)),
            decreases addrs@.len() - k,
        {
            let a = addrs[k];
            assert(addrs@.skip(k as int)[0] == a);
            assert(addrs@.skip(k as int).drop_first() =~= addrs@.skip(k + 1));
            let ghost before = spec_views(out@);
            match self.module_info_by_address(a.address, a.arch) {
                Ok(m) => {
                    out.push(m);
                    assert(spec_views(out@) =~= before + seq![m@]);
                    assert(before + (seq![m@] + self.spec_infos_of(addrs@.skip(k + 1)))
                        =~= spec_views(out@) + self.spec_infos_of(addrs@.skip(k + 1)));
                },
                Err(_) => {},
            }
            k = k + 1;
        }
        assert(addrs@.skip(k as int) =~= Seq::<ModuleAddressInfo>::empty());
        assert(spec_views(out@) + Seq::<ModuleInfoView>::empty()
            =~= spec_views(out@));
        Ok(out)
    }

    /// The main module: the first in the list whose base is the process's
    /// section base.
    pub fn main_module_info(&self) -> (r: Result<ModuleInfo, Error>)
        ensures
            match self.spec_module_list() {
                Err(e) => r is Err && r->Err_0 == e,
                Ok(l) => match spec_first_with_base(l, self.proc_info.section_base) {
                    Some(m) => r is Ok && r->Ok_0@ == m,
                    None => r is Err && r->Err_0 == Error::ModuleInfo,
                },
            },
    {
        let list = self.module_list()?;
        let ghost l = spec_views(list@);
        assert(self.spec_module_list() == Ok::<Seq<ModuleInfoView>, Error>(l));
        let mut k: usize = 0;
        assert(l.skip(0) =~= l);
        while k < list.len()
            invariant
                k <= list@.len(),
                l == spec_views(list@),
                self.spec_module_list() == Ok::<Seq<ModuleInfoView>, Error>(l),
                spec_first_with_base(l, self.proc_info.section_base) == spec_first_with_base(
                    l.skip(k as int),
                    self.proc_info.section_base,
                ),
            decreases list@.len() - k,
        {
            assert(l.skip(k as int)[0] == list@[k as int]@);
            assert(l.skip(k as int).drop_first() =~= l.skip(k + 1));
            if list[k].base == self.proc_info.section_base {
                assert(spec_first_with_base(l.skip(k as int), self.proc_info.section_base) == Some(l[k as int]));
                let mut list = list;
                let m = list.remove(k);
                assert(m@ == l[k as int]);
                return Ok(m);
            }
            k = k + 1;
        }
        assert(l.skip(k as int) =~= Seq::<ModuleInfoView>::empty());
        Err(Error::ModuleInfo)
    }

    /// The first module in the list whose name is `name`.
    pub fn module_info(&self, name: &str) -> (r: Result<ModuleInfo, Error>)
        ensures
            match self.spec_module_list() {
                Err(e) => r is Err && r->Err_0 == e,
                Ok(l) => match spec_first_with_name(l, name@) {
                    Some(m) => r is Ok && r->Ok_0@ == m,
                    None => r is Err && r->Err_0 == Error::ModuleInfo,
                },
            },
    {
        let list = self.module_list()?;
        let ghost l = spec_views(list@);
        assert(self.spec_module_list() == Ok::<Seq<ModuleInfoView>, Error>(l));
        let mut k: usize = 0;
        assert(l.skip(0) =~= l);
        while k < list.len()
            invariant
                k <= list@.len(),
                l == spec_views(list@),
                self.spec_module_list() == Ok::<Seq<ModuleInfoView>, Error>(l),
                spec_first_with_name(l, name@) == spec_first_with_name(l.skip(k as int), name@),
            decreases list@.len() - k,
        {
            assert(l.skip(k as int)[0] == list@[k as int]@);
            assert(l.skip(k as int).drop_first() =~= l.skip(k + 1));
            if str_eq(list[k].name.as_str(), name) {
                let mut list = list;
                return Ok(list.remove(k));
            }
            k = k + 1;
        }
        assert(l.skip(k as int) =~= Seq::<ModuleInfoView>::empty());
        Err(Error::ModuleInfo)
    }
}

} // verus!
