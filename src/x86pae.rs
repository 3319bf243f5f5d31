use vstd::prelude::*;

use crate::architecture::{Architecture, PAGE_SIZE};
use crate::error::Error;
use crate::phys::{le_u64_at, read_le_u64, PhysicalMemory};
use crate::start_block::StartBlock;
use crate::types::Address;

verus! {

/// Size of the low region that holds the stub.
pub const LOWSTUB_LIMIT: usize = 0x100_0000;

/// Whether quadword `i` of the page at `base` fits the PAE stub: the first four
/// point at the page's own page-directory pages, the rest are zero.
pub open spec fn spec_stub_entry_ok(mem: Seq<u8>, base: int, i: int) -> bool {
    let v = le_u64_at(mem, base + 8 * i);
    if i < 4 {
        v as int == base + ((i * 8) * 512) + 0x1001
    } else {
        v == 0
    }
}

/// Whether the page at `base` of `mem` is the x86 PAE low stub.
pub open spec fn spec_is_stub(mem: Seq<u8>, base: int) -> bool {
    forall|i: int| 0 <= i < 512 ==> #[trigger] spec_stub_entry_ok(mem, base, i)
}

/// The first page at or after `base` (page aligned) that holds the stub.
pub open spec fn spec_first_stub_from(mem: Seq<u8>, base: int) -> Option<int>
    decreases mem.len() - base,
{
    if base < 0 || base + PAGE_SIZE as int > mem.len() {
        None
    } else if spec_is_stub(mem, base) {
        Some(base)
    } else {
        spec_first_stub_from(mem, base + PAGE_SIZE as int)
    }
}

/// What the PAE stub scan of the low memory `mem` finds.
pub open spec fn spec_find(mem: Seq<u8>) -> Result<StartBlock, Error> {
    match spec_first_stub_from(mem, 0) {
        Some(p) => Ok(
            StartBlock {
                arch: Architecture::X86Pae,
                kernel_hint: Address(0),
                dtb: Address(p as u64),
            },
        ),
        None => Err(Error::Initialization),
    }
}

/// Discovery depends on the image alone: two scans of equal images find the
/// same page, which is the lowest page that holds the stub.
pub proof fn lemma_find_deterministic(mem1: Seq<u8>, mem2: Seq<u8>)
    requires
        mem1 == mem2,
        mem1.len() <= usize::MAX,
    ensures
        spec_find(mem1) == spec_find(mem2),
        spec_find(mem1) matches Ok(sb) ==> spec_is_stub(mem1, sb.dtb.0 as int) && forall|p: int|
            0 <= p < sb.dtb.0 && p % (PAGE_SIZE as int) == 0 ==> !spec_is_stub(mem1, p),
{
    lemma_first_stub_is_lowest(mem1, 0);
}

proof fn lemma_first_stub_is_lowest(mem: Seq<u8>, base: int)
    requires
        base >= 0,
        base % (PAGE_SIZE as int) == 0,
    ensures
        spec_first_stub_from(mem, base) matches Some(p) ==> p + PAGE_SIZE <= mem.len() && base <= p
            && p % (PAGE_SIZE as int) == 0 && spec_is_stub(mem, p) && forall|q: int|
            base <= q < p && q % (PAGE_SIZE as int) == 0 ==> !spec_is_stub(mem, q),
    decreases mem.len() - base,
{
    if base + PAGE_SIZE as int <= mem.len() && !spec_is_stub(mem, base) {
        lemma_first_stub_is_lowest(mem, base + PAGE_SIZE as int);
        if let Some(p) = spec_first_stub_from(mem, base) {
            assert forall|q: int|
                base <= q < p && q % (PAGE_SIZE as int) == 0 implies !spec_is_stub(mem, q) by {
                if q > base {
                    assert(q >= base + PAGE_SIZE as int);
                }
            }
        }
    }
}

fn check_page(mem: &Vec<u8>, base: usize) -> (r: bool)
    requires
        base + PAGE_SIZE <= mem@.len(),
    ensures
        r == spec_is_stub(mem@, base as int),
{
    let n = mem.len();
    let mut i: usize = 0;
    while i < 512
        invariant
            i <= 512,
            base + PAGE_SIZE <= mem@.len(),
            n == mem@.len(),
            forall|j: int| 0 <= j < i ==> #[trigger] spec_stub_entry_ok(mem@, base as int, j),
        decreases 512 - i,
    {
        assert(base + 8 * i + 8 <= mem@.len());
        let v = read_le_u64(mem, base + 8 * i);
        if i < 4 {
            if v as u128 != base as u128 + ((i as u128 * 8) * 512) + 0x1001 {
                assert(!spec_stub_entry_ok(mem@, base as int, i as int));
                return false;
            }
        } else if v != 0 {
            assert(!spec_stub_entry_ok(mem@, base as int, i as int));
            return false;
        }
        assert(spec_stub_entry_ok(mem@, base as int, i as int));
        i = i + 1;
    }
    true
}

/// Scans the low physical memory `mem` page by page, in increasing order, for
/// the x86 PAE stub, and returns the first page that holds it.
pub fn find(mem: &Vec<u8>) -> (r: Result<StartBlock, Error>)
    ensures
        r == spec_find(mem@),
{
    let mut base: usize = 0;
    while base <= mem.len() && mem.len() - base >= PAGE_SIZE as usize
        invariant
            base as int % (PAGE_SIZE as int) == 0,
            base <= mem@.len() + PAGE_SIZE,
            spec_first_stub_from(mem@, 0) == spec_first_stub_from(mem@, base as int),
        decreases mem@.len() + PAGE_SIZE - base,
    {
        if check_page(mem, base) {
            return Ok(
                StartBlock {
                    arch: Architecture::X86Pae,
                    kernel_hint: Address(0),
                    dtb: Address(base as u64),
                },
            );
        }
        base = base + PAGE_SIZE as usize;
    }
    Err(Error::Initialization)
}

/// Reads the low physical memory of `phys`, up to 16 MiB, and scans it for
/// the x86 PAE stub.
pub fn find_in<P: PhysicalMemory>(phys: &P) -> (r: Result<StartBlock, Error>)
    ensures
        r == spec_find(
            phys.phys_view().take(
                if phys.phys_view().len() < LOWSTUB_LIMIT {
                    phys.phys_view().len() as int
                } else {
                    LOWSTUB_LIMIT as int
                },
            ),
        ),
{
    let size = phys.metadata().size;
    let len = if size < LOWSTUB_LIMIT {
        size
    } else {
        LOWSTUB_LIMIT
    };
    let low = match phys.phys_read(0, len) {
        Ok(b) => b,
        Err(e) => return Err(e),
    };
    assert(low@ =~= phys.phys_view().take(len as int));
    find(&low)
}

} // verus!
