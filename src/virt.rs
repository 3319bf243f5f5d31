use vstd::prelude::*;

use crate::architecture::{Architecture, PAGE_SIZE};
use crate::error::{Error, FaultKind, ReadFailure};
use crate::phys::{in_range, le_u16_at, le_u32_at, le_u64_at, read_le_u16, read_le_u32, read_le_u64, PhysicalMemory};
use crate::translate::{lemma_translate_from_offset, spec_translate, virt_to_phys};
use crate::types::{spec_checked_add, Address};

verus! {

/// The result of a virtual read: the bytes, with zeros where a fragment failed,
/// and the failed fragments in order.
pub struct ReadOutcome {
    pub data: Vec<u8>,
    pub failed: Vec<ReadFailure>,
}

/// Length of the fragment of a read of `len` bytes at `va` that stays in the page of `va`.
pub open spec fn spec_fragment_len(va: int, len: int) -> int {
    let room = PAGE_SIZE as int - va % (PAGE_SIZE as int);
    if len < room {
        len
    } else {
        room
    }
}

/// The bytes of one fragment that stays within a page: those at its translation.
pub open spec fn spec_read_fragment(
    mem: Seq<u8>,
    arch: Architecture,
    dtb: u64,
    va: u64,
    len: int,
) -> Result<Seq<u8>, FaultKind> {
    match spec_translate(mem, arch, dtb, va) {
        Ok(pa) => if in_range(mem, pa as int, len) {
            Ok(mem.subrange(pa as int, pa + len))
        } else {
            Err(FaultKind::Connector)
        },
        Err(Error::NotPresent) => Err(FaultKind::NotPresent),
        Err(_) => Err(FaultKind::Connector),
    }
}

pub open spec fn zeros(n: nat) -> Seq<u8> {
    Seq::new(n, |i: int| 0u8)
}

/// A virtual read of `len` bytes at `va`, whose first byte is at `offset` in
/// the caller's buffer: split at page boundaries, each fragment read at its
/// translation, failed fragments zero-filled and listed.
pub open spec fn spec_virt_read_at(
    mem: Seq<u8>,
    arch: Architecture,
    dtb: u64,
    va: int,
    offset: int,
    len: int,
) -> (Seq<u8>, Seq<ReadFailure>)
    decreases len,
{
    if len <= 0 {
        (Seq::empty(), Seq::empty())
    } else {
        let flen = spec_fragment_len(va, len);
        let rest = spec_virt_read_at(mem, arch, dtb, va + flen, offset + flen, len - flen);
        match spec_read_fragment(mem, arch, dtb, va as u64, flen) {
            Ok(bytes) => (bytes + rest.0, rest.1),
            Err(cause) => (
                zeros(flen as nat) + rest.0,
                seq![ReadFailure { offset: offset as usize, len: flen as usize, cause }] + rest.1,
            ),
        }
    }
}

/// A virtual read yields exactly the bytes asked for, failed fragments included.
pub proof fn lemma_virt_read_len(
    mem: Seq<u8>,
    arch: Architecture,
    dtb: u64,
    va: int,
    offset: int,
    len: int,
)
    requires
        len >= 0,
    ensures
        spec_virt_read_at(mem, arch, dtb, va, offset, len).0.len() == len,
    decreases len,
{
    if len > 0 {
        let flen = spec_fragment_len(va, len);
        lemma_virt_read_len(mem, arch, dtb, va + flen, offset + flen, len - flen);
    }
}

/// Reading `n` bytes at a virtual address that translates to `pa`, without
/// leaving its page, reads the `n` bytes at `pa`: each of those virtual
/// addresses translates to the matching byte from `pa`, and the bytes come
/// through whole when they lie in physical memory, else (for `n > 0`) as one
/// failed fragment.
pub proof fn lemma_translation_round_trip(
    mem: Seq<u8>,
    arch: Architecture,
    dtb: u64,
    va: u64,
    pa: u64,
    n: nat,
)
    requires
        spec_translate(mem, arch, dtb, va) == Ok::<u64, Error>(pa),
        n <= PAGE_SIZE - va % PAGE_SIZE,
    ensures
        in_range(mem, pa as int, n as int) ==> spec_virt_read(mem, arch, dtb, va, n) == (
            mem.subrange(pa as int, pa + n),
            Seq::<ReadFailure>::empty(),
        ),
        n > 0 && !in_range(mem, pa as int, n as int) ==> spec_virt_read(mem, arch, dtb, va, n).1 == seq![
            ReadFailure { offset: 0, len: n as usize, cause: FaultKind::Connector },
        ],
        forall|i: int|
            0 <= i < n ==> pa + i <= u64::MAX && #[trigger] spec_translate(
                mem,
                arch,
                dtb,
                (va + i) as u64,
            ) == Ok::<u64, Error>((pa + i) as u64),
{
    assert forall|i: int| 0 <= i < n implies pa + i <= u64::MAX && #[trigger] spec_translate(
        mem,
        arch,
        dtb,
        (va + i) as u64,
    ) == Ok::<u64, Error>((pa + i) as u64) by {
        let j = i as u64;
        assert(va & 0xfff == va % 4096) by (bit_vector);
        lemma_translate_from_offset(mem, arch, dtb, va, j, arch.spec_levels());
    }
    if n > 0 {
        assert(spec_fragment_len(va as int, n as int) == n);
        let rest = spec_virt_read_at(mem, arch, dtb, va + n, n as int, 0);
        assert(rest.0 =~= Seq::<u8>::empty());
        assert(rest.1 =~= Seq::<ReadFailure>::empty());
        if in_range(mem, pa as int, n as int) {
            assert(spec_virt_read(mem, arch, dtb, va, n).0 =~= mem.subrange(pa as int, pa + n));
            assert(spec_virt_read(mem, arch, dtb, va, n).1 =~= Seq::<ReadFailure>::empty());
        } else {
            assert(spec_virt_read(mem, arch, dtb, va, n).1 =~= seq![
                ReadFailure { offset: 0, len: n as usize, cause: FaultKind::Connector },
            ]);
        }
    } else if in_range(mem, pa as int, n as int) {
        assert(spec_virt_read(mem, arch, dtb, va, n).0 =~= mem.subrange(pa as int, pa + n));
    }
}

/// A read split at a page boundary `a` bytes in is the read of the first `a`
/// bytes followed by the read of the rest: the bytes are concatenated, and the
/// failed fragments are those of each part, with the same offsets.
#[verifier::rlimit(60)]
pub proof fn lemma_cross_page_stitching(
    mem: Seq<u8>,
    arch: Architecture,
    dtb: u64,
    va: int,
    offset: int,
    len: int,
    a: int,
)
    requires
        0 <= a <= len,
        (va + a) % (PAGE_SIZE as int) == 0,
    ensures
        spec_virt_read_at(mem, arch, dtb, va, offset, len).0 == spec_virt_read_at(
            mem,
            arch,
            dtb,
            va,
            offset,
            a,
        ).0 + spec_virt_read_at(mem, arch, dtb, va + a, offset + a, len - a).0,
        spec_virt_read_at(mem, arch, dtb, va, offset, len).1 == spec_virt_read_at(
            mem,
            arch,
            dtb,
            va,
            offset,
            a,
        ).1 + spec_virt_read_at(mem, arch, dtb, va + a, offset + a, len - a).1,
    decreases len,
{
    let whole = spec_virt_read_at(mem, arch, dtb, va, offset, len);
    let first = spec_virt_read_at(mem, arch, dtb, va, offset, a);
    let second = spec_virt_read_at(mem, arch, dtb, va + a, offset + a, len - a);
    if a == 0 {
        assert(first.0 =~= Seq::<u8>::empty());
        assert(whole.0 =~= first.0 + second.0);
        assert(whole.1 =~= first.1 + second.1);
    } else {
        let flen = spec_fragment_len(va, len);
        assert(flen == spec_fragment_len(va, a));
        assert(0 < flen <= a);
        lemma_cross_page_stitching(mem, arch, dtb, va + flen, offset + flen, len - flen, a - flen);
        assert(whole.0 =~= first.0 + second.0);
        assert(whole.1 =~= first.1 + second.1);
    }
}

/// A virtual read of `len` bytes at `va`.
pub open spec fn spec_virt_read(mem: Seq<u8>, arch: Architecture, dtb: u64, va: u64, len: nat) -> (
    Seq<u8>,
    Seq<ReadFailure>,
) {
    spec_virt_read_at(mem, arch, dtb, va as int, 0, len as int)
}

/// A virtual read of `len` bytes at `va` that must come through whole.
pub open spec fn spec_virt_read_exact(
    mem: Seq<u8>,
    arch: Architecture,
    dtb: u64,
    va: u64,
    len: nat,
) -> Result<Seq<u8>, Error> {
    let r = spec_virt_read(mem, arch, dtb, va, len);
    if r.1.len() == 0 {
        Ok(r.0)
    } else {
        Err(Error::Partial(r.1[0]))
    }
}

/// A whole read of `len` bytes at `va`, where the range must end within the address space.
pub open spec fn spec_read_bytes(
    mem: Seq<u8>,
    arch: Architecture,
    dtb: u64,
    va: u64,
    len: nat,
) -> Result<Seq<u8>, Error> {
    if va + len > u64::MAX + 1 {
        Err(Error::OutOfBounds)
    } else {
        spec_virt_read_exact(mem, arch, dtb, va, len)
    }
}

/// A pointer of `width` bytes (4 or 8), read little-endian at `va`.
pub open spec fn spec_read_pointer(
    mem: Seq<u8>,
    arch: Architecture,
    dtb: u64,
    width: nat,
    va: u64,
) -> Result<u64, Error> {
    match spec_read_bytes(mem, arch, dtb, va, width) {
        Ok(b) => Ok(
            if width == 4 {
                le_u32_at(b, 0)
            } else {
                le_u64_at(b, 0)
            },
        ),
        Err(e) => Err(e),
    }
}

/// A `u16` read at `va`.
pub open spec fn spec_read_u16(mem: Seq<u8>, arch: Architecture, dtb: u64, va: u64) -> Result<
    u16,
    Error,
> {
    match spec_read_bytes(mem, arch, dtb, va, 2) {
        Ok(b) => Ok(le_u16_at(b, 0)),
        Err(e) => Err(e),
    }
}

/// The UTF-16 code units of the little-endian bytes `b`.
pub open spec fn spec_utf16_units(b: Seq<u8>) -> Seq<u16> {
    Seq::new(b.len() / 2, |i: int| le_u16_at(b, 2 * i))
}

/// The text that UTF-16 `units` decode to, each invalid unit replaced by U+FFFD.
pub uninterp spec fn utf16_lossy(units: Seq<u16>) -> Seq<char>;

/// Relies on std's `String::from_utf16_lossy`: it decodes UTF-16, replacing
/// each unpaired surrogate by U+FFFD, and depends on the units alone.
#[verifier::external_body]
pub(crate) fn decode_utf16_lossy(units: &Vec<u16>) -> (r: String)
    ensures
        r@ == utf16_lossy(units@),
{
    String::from_utf16_lossy(units.as_slice())
}

/// Offset of the buffer pointer in a `UNICODE_STRING` with pointers of `width` bytes.
pub open spec fn spec_unicode_buffer_offset(width: nat) -> u64 {
    if width == 4 {
        4
    } else {
        8
    }
}

/// The text of the `UNICODE_STRING` at `va`, whose pointers are `width` bytes wide.
/// Its byte length must be even; an empty one is read without its buffer.
pub open spec fn spec_read_unicode_string(
    mem: Seq<u8>,
    arch: Architecture,
    dtb: u64,
    width: nat,
    va: u64,
) -> Result<Seq<char>, Error> {
    match spec_read_u16(mem, arch, dtb, va) {
        Err(e) => Err(e),
        Ok(n) => if n % 2 != 0 {
            Err(Error::Encoding)
        } else if va + spec_unicode_buffer_offset(width) > u64::MAX {
            Err(Error::OutOfBounds)
        } else {
            match spec_read_pointer(
                mem,
                arch,
                dtb,
                width,
                (va + spec_unicode_buffer_offset(width)) as u64,
            ) {
                Err(e) => Err(e),
                Ok(buf) => if n == 0 {
                    Ok(Seq::empty())
                } else {
                    match spec_read_bytes(mem, arch, dtb, buf, n as nat) {
                        Err(e) => Err(e),
                        Ok(b) => Ok(utf16_lossy(spec_utf16_units(b))),
                    }
                },
            }
        },
    }
}

/// A pointer of `width` bytes read at `off` bytes past `base`.
pub open spec fn spec_read_field(
    mem: Seq<u8>,
    arch: Architecture,
    dtb: u64,
    width: nat,
    base: u64,
    off: u64,
) -> Result<u64, Error> {
    match spec_checked_add(Address(base), off) {
        None => Err(Error::OutOfBounds),
        Some(a) => spec_read_pointer(mem, arch, dtb, width, a.0),
    }
}

/// The text of the `UNICODE_STRING` at `off` bytes past `base`.
pub open spec fn spec_read_unicode_field(
    mem: Seq<u8>,
    arch: Architecture,
    dtb: u64,
    width: nat,
    base: u64,
    off: u64,
) -> Result<Seq<char>, Error> {
    match spec_checked_add(Address(base), off) {
        None => Err(Error::OutOfBounds),
        Some(a) => spec_read_unicode_string(mem, arch, dtb, width, a.0),
    }
}

/// One page-bounded fragment of a batched translation: the index of the
/// request it came from, its virtual address and length, and its translation.
pub struct TranslateChunk {
    pub tag: usize,
    pub va: Address,
    pub len: usize,
    pub pa: Result<Address, Error>,
}

/// The translation of `va` as a chunk result.
pub open spec fn spec_translate_addr(mem: Seq<u8>, arch: Architecture, dtb: u64, va: u64) -> Result<
    Address,
    Error,
> {
    match spec_translate(mem, arch, dtb, va) {
        Ok(pa) => Ok(Address(pa)),
        Err(e) => Err(e),
    }
}

/// The chunks of request `tag`, of `len` bytes at `va`, split at page boundaries.
pub open spec fn spec_chunks(
    mem: Seq<u8>,
    arch: Architecture,
    dtb: u64,
    tag: usize,
    va: int,
    len: int,
) -> Seq<TranslateChunk>
    decreases len,
{
    if len <= 0 {
        Seq::empty()
    } else {
        let flen = spec_fragment_len(va, len);
        seq![
            TranslateChunk {
                tag,
                va: Address(va as u64),
                len: flen as usize,
                pa: spec_translate_addr(mem, arch, dtb, va as u64),
            },
        ] + spec_chunks(mem, arch, dtb, tag, va + flen, len - flen)
    }
}

/// The chunks of the requests of `reqs` from index `i` on, request by request.
pub open spec fn spec_batch(
    mem: Seq<u8>,
    arch: Architecture,
    dtb: u64,
    reqs: Seq<(Address, usize)>,
    i: int,
) -> Seq<TranslateChunk>
    decreases reqs.len() - i,
{
    if i < 0 || i >= reqs.len() {
        Seq::empty()
    } else {
        spec_chunks(mem, arch, dtb, i as usize, reqs[i].0.0 as int, reqs[i].1 as int) + spec_batch(
            mem,
            arch,
            dtb,
            reqs,
            i + 1,
        )
    }
}

proof fn lemma_chunks_individual(
    mem: Seq<u8>,
    arch: Architecture,
    dtb: u64,
    tag: usize,
    va: int,
    len: int,
)
    ensures
        forall|j: int|
            0 <= j < spec_chunks(mem, arch, dtb, tag, va, len).len() ==> {
                let c = #[trigger] spec_chunks(mem, arch, dtb, tag, va, len)[j];
                c.tag == tag && c.pa == spec_translate_addr(mem, arch, dtb, c.va.0)
            },
    decreases len,
{
    if len > 0 {
        let flen = spec_fragment_len(va, len);
        lemma_chunks_individual(mem, arch, dtb, tag, va + flen, len - flen);
        let rest = spec_chunks(mem, arch, dtb, tag, va + flen, len - flen);
        let all = spec_chunks(mem, arch, dtb, tag, va, len);
        assert forall|j: int| 0 < j < all.len() implies all[j] == rest[j - 1] by {}
    }
}

/// Batched translation agrees with translating one address at a time: every
/// chunk carries the translation of its own virtual address, and a valid
/// request index.
pub proof fn lemma_batched_equivalence(
    mem: Seq<u8>,
    arch: Architecture,
    dtb: u64,
    reqs: Seq<(Address, usize)>,
    i: int,
)
    requires
        0 <= i,
        reqs.len() <= usize::MAX,
    ensures
        forall|j: int|
            0 <= j < spec_batch(mem, arch, dtb, reqs, i).len() ==> {
                let c = #[trigger] spec_batch(mem, arch, dtb, reqs, i)[j];
                i <= c.tag < reqs.len() && c.pa == spec_translate_addr(mem, arch, dtb, c.va.0)
            },
    decreases reqs.len() - i,
{
    if i < reqs.len() {
        let first = spec_chunks(mem, arch, dtb, i as usize, reqs[i].0.0 as int, reqs[i].1 as int);
        lemma_chunks_individual(mem, arch, dtb, i as usize, reqs[i].0.0 as int, reqs[i].1 as int);
        lemma_batched_equivalence(mem, arch, dtb, reqs, i + 1);
        let rest = spec_batch(mem, arch, dtb, reqs, i + 1);
        let all = spec_batch(mem, arch, dtb, reqs, i);
        assert forall|j: int| 0 <= j < all.len() implies ({
            let c = #[trigger] all[j];
            i <= c.tag < reqs.len() && c.pa == spec_translate_addr(mem, arch, dtb, c.va.0)
        }) by {
            if j < first.len() {
                assert(all[j] == first[j]);
            } else {
                assert(all[j] == rest[j - first.len()]);
            }
        }
    }
}

/// A virtual memory view: a physical memory, the translation mode and
/// top table of one address space, and the pointer width of the code that
/// runs in it.
#[derive(Clone, Debug)]
pub struct VirtualDma<P> {
    pub phys: P,
    /// The mode that the page tables are in.
    pub arch: Architecture,
    /// The mode of the code whose pointers are read through this view.
    pub proc_arch: Architecture,
    pub dtb: Address,
}

impl<P: PhysicalMemory> VirtualDma<P> {
    pub open spec fn mem(&self) -> Seq<u8> {
        self.phys.phys_view()
    }

    pub fn new(phys: P, arch: Architecture, dtb: Address) -> (r: Self)
        ensures
            r.phys == phys,
            r.arch == arch,
            r.proc_arch == arch,
            r.dtb == dtb,
    {
        VirtualDma { phys, arch, proc_arch: arch, dtb }
    }

    /// A view whose page tables are in mode `arch` and whose code uses the pointers of `proc_arch`.
    pub fn with_proc_arch(phys: P, arch: Architecture, proc_arch: Architecture, dtb: Address) -> (r:
        Self)
        ensures
            r.phys == phys,
            r.arch == arch,
            r.proc_arch == proc_arch,
            r.dtb == dtb,
    {
        VirtualDma { phys, arch, proc_arch, dtb }
    }

    /// Gives the physical memory back.
    pub fn destroy(self) -> (r: P)
        ensures
            r == self.phys,
    {
        self.phys
    }

    /// Translates a virtual address of this view.
    pub fn virt_translate(&self, va: Address) -> (r: Result<Address, Error>)
        ensures
            match spec_translate(self.mem(), self.arch, self.dtb.0, va.0) {
                Ok(pa) => r == Ok::<Address, Error>(Address(pa)),
                Err(e) => r == Err::<Address, Error>(e),
            },
    {
        match virt_to_phys(&self.phys, self.arch, self.dtb.0, va.0) {
            Ok(pa) => Ok(Address(pa)),
            Err(e) => Err(e),
        }
    }

    fn read_fragment(&self, va: u64, len: usize) -> (r: Result<Vec<u8>, FaultKind>)
        ensures
            match spec_read_fragment(self.mem(), self.arch, self.dtb.0, va, len as int) {
                Ok(b) => r.is_ok() && r.unwrap()@ == b,
                Err(k) => r == Err::<Vec<u8>, FaultKind>(k),
            },
    {
        match virt_to_phys(&self.phys, self.arch, self.dtb.0, va) {
            Ok(pa) => match self.phys.phys_read(pa, len) {
                Ok(b) => Ok(b),
                Err(_) => Err(FaultKind::Connector),
            },
            Err(Error::NotPresent) => Err(FaultKind::NotPresent),
            Err(_) => Err(FaultKind::Connector),
        }
    }

    /// Reads `len` bytes at `va`. Each page-sized fragment is translated and
    /// read on its own; what failed is zero-filled and listed, with its offset.
    pub fn virt_read(&self, va: Address, len: usize) -> (r: ReadOutcome)
        requires
            va.0 + len <= u64::MAX + 1,
        ensures
            (r.data@, r.failed@) == spec_virt_read(self.mem(), self.arch, self.dtb.0, va.0, len as nat),
    {
        let mut data: Vec<u8> = Vec::with_capacity(len);
        let mut failed: Vec<ReadFailure> = Vec::new();
        let mut done: usize = 0;
        let ghost full = spec_virt_read(self.mem(), self.arch, self.dtb.0, va.0, len as nat);
        while done < len
            invariant
                done <= len,
                va.0 + len <= u64::MAX + 1,
                data@.len() == done,
                full == spec_virt_read(self.mem(), self.arch, self.dtb.0, va.0, len as nat),
                ({
                    let rest = spec_virt_read_at(
                        self.mem(),
                        self.arch,
                        self.dtb.0,
                        va.0 + done,
                        done as int,
                        len - done,
                    );
                    full.0 == data@ + rest.0 && full.1 == failed@ + rest.1
                }),
            decreases len - done,
        {
            let cur: u64 = va.0 + done as u64;
            let room: u64 = PAGE_SIZE - cur % PAGE_SIZE;
            let flen: usize = if ((len - done) as u64) < room {
                len - done
            } else {
                room as usize
            };
            let ghost rest = spec_virt_read_at(
                self.mem(),
                self.arch,
                self.dtb.0,
                va.0 + done,
                done as int,
                len - done,
            );
            let ghost next = spec_virt_read_at(
                self.mem(),
                self.arch,
                self.dtb.0,
                va.0 + done + flen,
                done + flen,
                len - done - flen,
            );
            assert(flen == spec_fragment_len(cur as int, len - done));
            match self.read_fragment(cur, flen) {
                Ok(b) => {
                    let mut i: usize = 0;
                    let ghost before = data@;
                    while i < flen
                        invariant
                            i <= flen,
                            flen == b@.len(),
                            data@ == before + b@.subrange(0, i as int),
                        decreases flen - i,
                    {
                        data.push(b[i]);
                        i = i + 1;
                        assert(data@ =~= before + b@.subrange(0, i as int));
                    }
                    assert(b@.subrange(0, flen as int) =~= b@);
                    assert(full.0 =~= data@ + next.0);
                },
                Err(cause) => {
                    failed.push(ReadFailure { offset: done, len: flen, cause });
                    let mut i: usize = 0;
                    let ghost before = data@;
                    while i < flen
                        invariant
                            i <= flen,
                            data@ == before + zeros(i as nat),
                        decreases flen - i,
                    {
                        data.push(0u8);
                        i = i + 1;
                        assert(data@ =~= before + zeros(i as nat));
                    }
                    assert(full.0 =~= data@ + next.0);
                    assert(full.1 =~= failed@ + next.1);
                },
            }
            done = done + flen;
        }
        assert(data@ =~= full.0);
        assert(failed@ =~= full.1);
        ReadOutcome { data, failed }
    }

    /// Reads `len` bytes at `va`; fails unless every fragment came through.
    pub fn virt_read_exact(&self, va: Address, len: usize) -> (r: Result<Vec<u8>, Error>)
        ensures
            match spec_read_bytes(self.mem(), self.arch, self.dtb.0, va.0, len as nat) {
                Ok(b) => r.is_ok() && r.unwrap()@ == b,
                Err(e) => r == Err::<Vec<u8>, Error>(e),
            },
            r.is_ok() ==> r.unwrap()@.len() == len,
    {
        if va.0 as u128 + len as u128 > u64::MAX as u128 + 1 {
            return Err(Error::OutOfBounds);
        }
        let out = self.virt_read(va, len);
        proof {
            lemma_virt_read_len(self.mem(), self.arch, self.dtb.0, va.0 as int, 0, len as int);
        }
        if out.failed.len() == 0 {
            Ok(out.data)
        } else {
            Err(Error::Partial(out.failed[0]))
        }
    }

    /// Reads a pointer of `width` bytes (4 or 8) at `va`.
    pub fn virt_read_pointer(&self, width: usize, va: Address) -> (r: Result<Address, Error>)
        requires
            width == 4 || width == 8,
        ensures
            match spec_read_pointer(self.mem(), self.arch, self.dtb.0, width as nat, va.0) {
                Ok(v) => r == Ok::<Address, Error>(Address(v)),
                Err(e) => r == Err::<Address, Error>(e),
            },
    {
        let b = self.virt_read_exact(va, width)?;
        if width == 4 {
            Ok(Address(read_le_u32(&b, 0)))
        } else {
            Ok(Address(read_le_u64(&b, 0)))
        }
    }

    /// Reads an address of the pointer width of `arch` at `va`.
    pub fn virt_read_addr_arch(&self, arch: Architecture, va: Address) -> (r: Result<Address, Error>)
        ensures
            match spec_read_pointer(
                self.mem(),
                self.arch,
                self.dtb.0,
                arch.spec_pointer_width(),
                va.0,
            ) {
                Ok(v) => r == Ok::<Address, Error>(Address(v)),
                Err(e) => r == Err::<Address, Error>(e),
            },
    {
        self.virt_read_pointer(arch.pointer_width(), va)
    }

    /// Reads a `u16` at `va`.
    pub fn virt_read_u16(&self, va: Address) -> (r: Result<u16, Error>)
        ensures
            match spec_read_u16(self.mem(), self.arch, self.dtb.0, va.0) {
                Ok(v) => r == Ok::<u16, Error>(v),
                Err(e) => r == Err::<u16, Error>(e),
            },
    {
        let b = self.virt_read_exact(va, 2)?;
        Ok(read_le_u16(&b, 0))
    }

    /// Reads a `u32` at `va`.
    pub fn virt_read_u32(&self, va: Address) -> (r: Result<u32, Error>)
        ensures
            match spec_read_pointer(self.mem(), self.arch, self.dtb.0, 4, va.0) {
                Ok(v) => r == Ok::<u32, Error>(v as u32),
                Err(e) => r == Err::<u32, Error>(e),
            },
    {
        let b = self.virt_read_exact(va, 4)?;
        proof {
            crate::dataview::lemma_le_u32_fits(b@);
        }
        Ok(read_le_u32(&b, 0) as u32)
    }

    /// Reads a `u64` at `va`.
    pub fn virt_read_u64(&self, va: Address) -> (r: Result<u64, Error>)
        ensures
            match spec_read_pointer(self.mem(), self.arch, self.dtb.0, 8, va.0) {
                Ok(v) => r == Ok::<u64, Error>(v),
                Err(e) => r == Err::<u64, Error>(e),
            },
    {
        let b = self.virt_read_exact(va, 8)?;
        Ok(read_le_u64(&b, 0))
    }

    /// Reads the `UNICODE_STRING` at `va`, laid out for the pointers of `arch`,
    /// and decodes its UTF-16LE text.
    pub fn virt_read_unicode_string(&self, arch: Architecture, va: Address) -> (r: Result<
        String,
        Error,
    >)
        ensures
            match spec_read_unicode_string(
                self.mem(),
                self.arch,
                self.dtb.0,
                arch.spec_pointer_width(),
                va.0,
            ) {
                Ok(t) => r.is_ok() && r.unwrap()@ == t,
                Err(e) => r == Err::<String, Error>(e),
            },
    {
        let n = self.virt_read_u16(va)?;
        if n % 2 != 0 {
            return Err(Error::Encoding);
        }
        let width = arch.pointer_width();
        let off: u64 = if width == 4 {
            4
        } else {
            8
        };
        if va.0 > u64::MAX - off {
            return Err(Error::OutOfBounds);
        }
        let buf = self.virt_read_pointer(width, Address(va.0 + off))?;
        if n == 0 {
            return Ok(String::new());
        }
        let b = self.virt_read_exact(buf, n as usize)?;
        let count: usize = (n / 2) as usize;
        assert(b@.len() == n);
        let mut units: Vec<u16> = Vec::with_capacity(count);
        let mut i: usize = 0;
        while i < count
            invariant
                i <= count,
                count == b@.len() / 2,
                count <= 0x8000,
                units@ == spec_utf16_units(b@).subrange(0, i as int),
            decreases count - i,
        {
            units.push(read_le_u16(&b, 2 * i));
            i = i + 1;
            assert(units@ =~= spec_utf16_units(b@).subrange(0, i as int));
        }
        assert(units@ =~= spec_utf16_units(b@));
        Ok(decode_utf16_lossy(&units))
    }

    /// Reads a pointer of the width of `arch` at `off` bytes past `base`.
    pub fn read_addr_field(&self, arch: Architecture, base: Address, off: u64) -> (r: Result<
        Address,
        Error,
    >)
        ensures
            match spec_read_field(
                self.mem(),
                self.arch,
                self.dtb.0,
                arch.spec_pointer_width(),
                base.0,
                off,
            ) {
                Ok(v) => r == Ok::<Address, Error>(Address(v)),
                Err(e) => r == Err::<Address, Error>(e),
            },
    {
        match base.checked_add(off) {
            None => Err(Error::OutOfBounds),
            Some(a) => self.virt_read_addr_arch(arch, a),
        }
    }

    /// Reads the `UNICODE_STRING`, laid out for `arch`, at `off` bytes past `base`.
    pub fn read_unicode_field(&self, arch: Architecture, base: Address, off: u64) -> (r: Result<
        String,
        Error,
    >)
        ensures
            match spec_read_unicode_field(
                self.mem(),
                self.arch,
                self.dtb.0,
                arch.spec_pointer_width(),
                base.0,
                off,
            ) {
                Ok(t) => r is Ok && r->Ok_0@ == t,
                Err(e) => r == Err::<String, Error>(e),
            },
    {
        match base.checked_add(off) {
            None => Err(Error::OutOfBounds),
            Some(a) => self.virt_read_unicode_string(arch, a),
        }
    }

    /// Translates each request `(va, len)` of `reqs`, split at page
    /// boundaries; the chunks come out request by request, in order.
    pub fn virt_translate_list(&self, reqs: &Vec<(Address, usize)>) -> (r: Vec<TranslateChunk>)
        requires
            forall|i: int| 0 <= i < reqs@.len() ==> #[trigger] reqs@[i].0.0 + reqs@[i].1 <= u64::MAX + 1,
        ensures
            r@ == spec_batch(self.mem(), self.arch, self.dtb.0, reqs@, 0),
    {
        let mut out: Vec<TranslateChunk> = Vec::new();
        let mut i: usize = 0;
        assert(out@ + spec_batch(self.mem(), self.arch, self.dtb.0, reqs@, 0) =~= spec_batch(
            self.mem(),
            self.arch,
            self.dtb.0,
            reqs@,
            0,
        ));
        while i < reqs.len()
            invariant
                i <= reqs@.len(),
                forall|i: int| 0 <= i < reqs@.len() ==> #[trigger] reqs@[i].0.0 + reqs@[i].1 <= u64::MAX + 1,
                out@ + spec_batch(self.mem(), self.arch, self.dtb.0, reqs@, i as int) == spec_batch(
                    self.mem(),
                    self.arch,
                    self.dtb.0,
                    reqs@,
                    0,
                ),
            decreases reqs@.len() - i,
        {
            let (va, len) = reqs[i];
            assert(va.0 + len <= u64::MAX + 1);
            let ghost before = out@;
            let mut done: usize = 0;
            assert(before + spec_chunks(self.mem(), self.arch, self.dtb.0, i, va.0 as int, len as int)
                =~= out@ + spec_chunks(self.mem(), self.arch, self.dtb.0, i, va.0 as int, len as int));
            while done < len
                invariant
                    done <= len,
                    va.0 + len <= u64::MAX + 1,
                    before + spec_chunks(self.mem(), self.arch, self.dtb.0, i, va.0 as int, len as int)
                        == out@ + spec_chunks(
                        self.mem(),
                        self.arch,
                        self.dtb.0,
                        i,
                        va.0 + done,
                        len - done,
                    ),
                decreases len - done,
            {
                let cur: u64 = va.0 + done as u64;
                let room: u64 = PAGE_SIZE - cur % PAGE_SIZE;
                let flen: usize = if ((len - done) as u64) < room {
                    len - done
                } else {
                    room as usize
                };
                assert(flen == spec_fragment_len(cur as int, len - done));
                let pa = self.virt_translate(Address(cur));
                let ghost prev = out@;
                let chunk = TranslateChunk { tag: i, va: Address(cur), len: flen, pa };
                out.push(chunk);
                assert(prev + spec_chunks(self.mem(), self.arch, self.dtb.0, i, va.0 + done, len - done)
                    =~= out@ + spec_chunks(
                    self.mem(),
                    self.arch,
                    self.dtb.0,
                    i,
                    va.0 + done + flen,
                    len - done - flen,
                ));
                done = done + flen;
            }
            assert(spec_chunks(self.mem(), self.arch, self.dtb.0, i, va.0 + done, len - done)
                =~= Seq::<TranslateChunk>::empty());
            assert(out@ + spec_batch(self.mem(), self.arch, self.dtb.0, reqs@, i + 1) =~= before
                + spec_batch(self.mem(), self.arch, self.dtb.0, reqs@, i as int));
            i = i + 1;
        }
        assert(out@ + spec_batch(self.mem(), self.arch, self.dtb.0, reqs@, i as int) =~= out@);
        out
    }
}

} // verus!
