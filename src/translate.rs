use vstd::prelude::*;

use crate::architecture::{Architecture, PTE_LARGE, PTE_PRESENT};
use crate::error::Error;
use crate::phys::{in_range, le_u32_at, le_u64_at, read_le_u32, read_le_u64, PhysicalMemory};

verus! {

/// The page-table entry of `arch` stored at physical address `pa`, if it lies in memory.
pub open spec fn spec_read_pte(mem: Seq<u8>, arch: Architecture, pa: int) -> Option<u64> {
    if in_range(mem, pa, arch.spec_pte_size() as int) {
        Some(
            if arch == Architecture::X86 {
                le_u32_at(mem, pa)
            } else {
                le_u64_at(mem, pa)
            },
        )
    } else {
        None
    }
}

/// The walk from the table at `table`, which sits at `level`, down to the page of `va`.
pub open spec fn spec_translate_from(
    mem: Seq<u8>,
    arch: Architecture,
    table: u64,
    va: u64,
    level: nat,
) -> Result<u64, Error>
    decreases level,
{
    if level == 0 {
        Err(Error::NotPresent)
    } else {
        let pa = table as int + arch.spec_index(level, va) as int * arch.spec_pte_size() as int;
        match spec_read_pte(mem, arch, pa) {
            None => Err(Error::Connector),
            Some(e) => if e & PTE_PRESENT == 0 {
                Err(Error::NotPresent)
            } else if level == 1 || (arch.spec_large_allowed(level) && e & PTE_LARGE != 0) {
                Ok(arch.spec_entry_pa(level, e, va))
            } else {
                spec_translate_from(mem, arch, e & arch.spec_frame_mask(), va, (level - 1) as nat)
            },
        }
    }
}

/// The physical address that `va` maps to in the address space whose top table is at `dtb`.
pub open spec fn spec_translate(mem: Seq<u8>, arch: Architecture, dtb: u64, va: u64) -> Result<
    u64,
    Error,
> {
    spec_translate_from(mem, arch, dtb, va, arch.spec_levels())
}

proof fn lemma_same_index(va: u64, j: u64, s: u64)
    requires
        12 <= s < 64,
        (va & 0xfff) + j < 0x1000,
    ensures
        ((va + j) as u64) >> s == va >> s,
{
    assert(((va + j) as u64) >> s == va >> s) by (bit_vector)
        requires
            12 <= s < 64,
            (va & 0xfff) + j < 0x1000,
    ;
}

proof fn lemma_same_frame(e: u64, f: u64, va: u64, j: u64, s: u64)
    requires
        12 <= s < 64,
        (va & 0xfff) + j < 0x1000,
    ensures
        (e & f & !(((1u64 << s) - 1) as u64)) | (((va + j) as u64) & (((1u64 << s) - 1) as u64))
            == (((e & f & !(((1u64 << s) - 1) as u64)) | (va & (((1u64 << s) - 1) as u64))) + j) as u64,
        ((e & f & !(((1u64 << s) - 1) as u64)) | (va & (((1u64 << s) - 1) as u64))) + j <= u64::MAX,
{
    assert((e & f & !(((1u64 << s) - 1) as u64)) | (((va + j) as u64) & (((1u64 << s) - 1) as u64))
        == (((e & f & !(((1u64 << s) - 1) as u64)) | (va & (((1u64 << s) - 1) as u64))) + j) as u64
        && ((e & f & !(((1u64 << s) - 1) as u64)) | (va & (((1u64 << s) - 1) as u64))) + j
        <= 0xffff_ffff_ffff_ffff) by (bit_vector)
        requires
            12 <= s < 64,
            (va & 0xfff) + j < 0x1000,
    ;
}

/// Within a page, translation keeps offsets: the walk for `va + j`, where
/// `va + j` stays in the page of `va`, fails as the walk for `va` does or
/// gives its result plus `j`.
pub proof fn lemma_translate_from_offset(
    mem: Seq<u8>,
    arch: Architecture,
    table: u64,
    va: u64,
    j: u64,
    level: nat,
)
    requires
        level <= arch.spec_levels(),
        (va & 0xfff) + j < 0x1000,
    ensures
        match spec_translate_from(mem, arch, table, va, level) {
            Ok(pa) => pa + j <= u64::MAX && spec_translate_from(
                mem,
                arch,
                table,
                (va + j) as u64,
                level,
            ) == Ok::<u64, Error>((pa + j) as u64),
            Err(e) => spec_translate_from(mem, arch, table, (va + j) as u64, level) == Err::<
                u64,
                Error,
            >(e),
        },
    decreases level,
{
    if level > 0 {
        let s = arch.spec_index_shift(level);
        assert(12 <= s < 64);
        lemma_same_index(va, j, s);
        assert(arch.spec_index(level, (va + j) as u64) == arch.spec_index(level, va));
        let pa = table as int + arch.spec_index(level, va) as int * arch.spec_pte_size() as int;
        match spec_read_pte(mem, arch, pa) {
            None => {},
            Some(e) => {
                lemma_same_frame(e, arch.spec_frame_mask(), va, j, s);
                if level > 1 {
                    lemma_translate_from_offset(
                        mem,
                        arch,
                        e & arch.spec_frame_mask(),
                        va,
                        j,
                        (level - 1) as nat,
                    );
                }
            },
        }
    }
}

/// Reads the page-table entry of `arch` at `pa`.
fn read_pte<P: PhysicalMemory>(mem: &P, arch: Architecture, pa: u64) -> (r: Result<u64, Error>)
    ensures
        match spec_read_pte(mem.phys_view(), arch, pa as int) {
            Some(e) => r == Ok::<u64, Error>(e),
            None => r == Err::<u64, Error>(Error::Connector),
        },
{
    let size = arch.pte_size();
    let b = mem.phys_read(pa, size)?;
    if size == 4 {
        Ok(read_le_u32(&b, 0))
    } else {
        Ok(read_le_u64(&b, 0))
    }
}

/// Translates the virtual address `va` of the address space whose top table is at `dtb`.
pub fn virt_to_phys<P: PhysicalMemory>(mem: &P, arch: Architecture, dtb: u64, va: u64) -> (r:
    Result<u64, Error>)
    ensures
        r == spec_translate(mem.phys_view(), arch, dtb, va),
{
    let mut table = dtb;
    let mut level = arch.levels();
    while level > 0
        invariant
            1 <= level <= arch.spec_levels() || level == 0,
            spec_translate(mem.phys_view(), arch, dtb, va) == spec_translate_from(
                mem.phys_view(),
                arch,
                table,
                va,
                level as nat,
            ),
        decreases level,
    {
        let idx = arch.index(level, va);
        let off = idx * arch.pte_size() as u64;
        let pa = match table.checked_add(off) {
            Some(pa) => pa,
            None => {
                let _meta = mem.metadata();
                assert(!in_range(mem.phys_view(), table + off, arch.spec_pte_size() as int));
                return Err(Error::Connector);
            },
        };
        let e = read_pte(mem, arch, pa)?;
        if !Architecture::is_present(e) {
            return Err(Error::NotPresent);
        }
        if level == 1 || (arch.large_allowed(level) && Architecture::is_large(e)) {
            return Ok(arch.entry_pa(level, e, va));
        }
        table = e & arch.frame_mask();
        level = level - 1;
    }
    Err(Error::NotPresent)
}

} // verus!
