use vstd::prelude::*;

use crate::types::Address;

verus! {

/// The chunks of the range of `len` bytes at `addr`, split at every multiple
/// of `page_size`: each is its start address and length, in increasing order.
pub open spec fn spec_page_chunks(addr: int, len: int, page_size: int) -> Seq<(Address, usize)>
    decreases len,
{
    if len <= 0 || page_size <= 0 {
        Seq::empty()
    } else {
        let room = page_size - addr % page_size;
        let flen = if len < room {
            len
        } else {
            room
        };
        seq![(Address(addr as u64), flen as usize)] + spec_page_chunks(addr + flen, len - flen, page_size)
    }
}

/// The chunks of a range add up to its length.
pub proof fn lemma_page_chunks_cover(addr: int, len: int, page_size: int)
    requires
        0 <= len <= usize::MAX,
        page_size > 0,
    ensures
        chunk_total(spec_page_chunks(addr, len, page_size)) == len,
    decreases len,
{
    if len > 0 {
        let room = page_size - addr % page_size;
        let flen = if len < room {
            len
        } else {
            room
        };
        lemma_page_chunks_cover(addr + flen, len - flen, page_size);
        let all = spec_page_chunks(addr, len, page_size);
        assert(all.drop_first() =~= spec_page_chunks(addr + flen, len - flen, page_size));
    }
}

/// The sum of the lengths of `chunks`.
pub open spec fn chunk_total(chunks: Seq<(Address, usize)>) -> int
    decreases chunks.len(),
{
    if chunks.len() == 0 {
        0
    } else {
        chunks[0].1 + chunk_total(chunks.drop_first())
    }
}

/// Splits the range of `len` bytes at `addr` at every multiple of `page_size`.
pub fn page_chunks(addr: Address, len: usize, page_size: u64) -> (r: Vec<(Address, usize)>)
    requires
        page_size > 0,
        addr.0 + len <= u64::MAX + 1,
    ensures
        r@ == spec_page_chunks(addr.0 as int, len as int, page_size as int),
{
    let mut out: Vec<(Address, usize)> = Vec::new();
    let mut done: usize = 0;
    let ghost full = spec_page_chunks(addr.0 as int, len as int, page_size as int);
    assert(out@ + full =~= full);
    while done < len
        invariant
            done <= len,
            page_size > 0,
            addr.0 + len <= u64::MAX + 1,
            full == spec_page_chunks(addr.0 as int, len as int, page_size as int),
            out@ + spec_page_chunks(addr.0 + done, len - done, page_size as int) == full,
        decreases len - done,
    {
        let cur: u64 = addr.0 + done as u64;
        let room: u64 = page_size - cur % page_size;
        let flen: usize = if ((len - done) as u64) < room {
            len - done
        } else {
            room as usize
        };
        let ghost prev = out@;
        out.push((Address(cur), flen));
        assert(prev + spec_page_chunks(addr.0 + done, len - done, page_size as int) =~= out@
            + spec_page_chunks(addr.0 + done + flen, len - done - flen, page_size as int));
        done = done + flen;
    }
    assert(out@ + spec_page_chunks(addr.0 + done, len - done, page_size as int) =~= out@);
    out
}

} // verus!
