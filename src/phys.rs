use vstd::prelude::*;

use crate::error::Error;

verus! {

/// Whether `len` bytes from `pa` lie inside a physical memory of contents `mem`.
pub open spec fn in_range(mem: Seq<u8>, pa: int, len: int) -> bool {
    0 <= pa && 0 <= len && pa + len <= mem.len()
}

/// The 4-byte little-endian value at byte `i` of `s`.
pub open spec fn le_u32_at(s: Seq<u8>, i: int) -> u64 {
    (s[i] as u64) | ((s[i + 1] as u64) << 8u64) | ((s[i + 2] as u64) << 16u64) | ((s[i + 3] as u64)
        << 24u64)
}

/// The 8-byte little-endian value at byte `i` of `s`.
pub open spec fn le_u64_at(s: Seq<u8>, i: int) -> u64 {
    le_u32_at(s, i) | (le_u32_at(s, i + 4) << 32u64)
}

/// The 2-byte little-endian value at byte `i` of `s`.
pub open spec fn le_u16_at(s: Seq<u8>, i: int) -> u16 {
    ((s[i] as u16) | ((s[i + 1] as u16) << 8u16)) as u16
}

/// Reads `b[i..i+4]` as a little-endian value.
pub fn read_le_u32(b: &Vec<u8>, i: usize) -> (r: u64)
    requires
        i + 4 <= b.len(),
    ensures
        r == le_u32_at(b@, i as int),
{
    (b[i] as u64) | ((b[i + 1] as u64) << 8u64) | ((b[i + 2] as u64) << 16u64) | ((b[i + 3] as u64)
        << 24u64)
}

/// Reads `b[i..i+8]` as a little-endian value.
pub fn read_le_u64(b: &Vec<u8>, i: usize) -> (r: u64)
    requires
        i + 8 <= b.len(),
    ensures
        r == le_u64_at(b@, i as int),
{
    read_le_u32(b, i) | (read_le_u32(b, i + 4) << 32u64)
}

/// Reads `b[i..i+2]` as a little-endian value.
pub fn read_le_u16(b: &Vec<u8>, i: usize) -> (r: u16)
    requires
        i + 2 <= b.len(),
    ensures
        r == le_u16_at(b@, i as int),
{
    (b[i] as u16) | ((b[i + 1] as u16) << 8u16)
}

/// What a physical memory tells of itself.
#[derive(Clone, Copy, PartialEq, Eq, Structural, Debug)]
pub struct PhysicalMemoryMetadata {
    /// Number of addressable bytes, from zero.
    pub size: usize,
    pub readonly: bool,
}

/// The narrow read interface that the library consumes from a connector.
pub trait PhysicalMemory {
    /// The bytes of the physical memory, from address zero.
    spec fn phys_view(&self) -> Seq<u8>;

    /// Reads `len` bytes at `pa`; fails when they do not all lie in the memory.
    fn phys_read(&self, pa: u64, len: usize) -> (r: Result<Vec<u8>, Error>)
        ensures
            match r {
                Ok(b) => in_range(self.phys_view(), pa as int, len as int) && b@
                    == self.phys_view().subrange(pa as int, pa + len),
                Err(e) => !in_range(self.phys_view(), pa as int, len as int) && e
                    == Error::Connector,
            },
    ;

    fn metadata(&self) -> (r: PhysicalMemoryMetadata)
        ensures
            r.size == self.phys_view().len(),
    ;
}

/// A physical memory image held in a buffer (a dump, or a synthesized image).
#[derive(Clone, Debug)]
pub struct PhysicalImage {
    pub data: Vec<u8>,
}

impl PhysicalImage {
    pub fn new(data: Vec<u8>) -> (r: PhysicalImage)
        ensures
            r.data@ == data@,
    {
        PhysicalImage { data }
    }

    /// An image of `size` zero bytes.
    pub fn zeroed(size: usize) -> (r: PhysicalImage)
        ensures
            r.data@ == Seq::new(size as nat, |i: int| 0u8),
    {
        let mut data: Vec<u8> = Vec::with_capacity(size);
        let mut i: usize = 0;
        while i < size
            invariant
                i <= size,
                data@ == Seq::new(i as nat, |j: int| 0u8),
            decreases size - i,
        {
            data.push(0u8);
            i = i + 1;
            assert(data@ =~= Seq::new(i as nat, |j: int| 0u8));
        }
        PhysicalImage { data }
    }

    /// Writes `bytes` at `pa`; bytes that fall past the end are dropped.
    pub fn write(&mut self, pa: usize, bytes: &Vec<u8>)
        ensures
            final(self).data@.len() == old(self).data@.len(),
            forall|i: int|
                #![trigger final(self).data@[i]]
                0 <= i < old(self).data@.len() ==> final(self).data@[i] == if pa <= i < pa
                    + bytes@.len() {
                    bytes@[i - pa]
                } else {
                    old(self).data@[i]
                },
    {
        let n = self.data.len();
        let mut j: usize = 0;
        while j < bytes.len()
            invariant
                j <= bytes.len(),
                n == old(self).data@.len(),
                self.data@.len() == n,
                forall|i: int|
                    #![trigger self.data@[i]]
                    0 <= i < n ==> self.data@[i] == if pa <= i < pa + j {
                        bytes@[i - pa]
                    } else {
                        old(self).data@[i]
                    },
            decreases bytes.len() - j,
        {
            if pa < n && j < n - pa {
                self.data.set(pa + j, bytes[j]);
            }
            j = j + 1;
        }
    }
}

impl PhysicalMemory for PhysicalImage {
    open spec fn phys_view(&self) -> Seq<u8> {
        self.data@
    }

    fn phys_read(&self, pa: u64, len: usize) -> (r: Result<Vec<u8>, Error>) {
        let n = self.data.len();
        if pa > n as u64 || len as u64 > n as u64 - pa {
            return Err(Error::Connector);
        }
        let start = pa as usize;
        let mut out: Vec<u8> = Vec::with_capacity(len);
        let mut i: usize = 0;
        while i < len
            invariant
                i <= len,
                start + len <= n,
                n == self.data@.len(),
                out@ == self.data@.subrange(start as int, start + i),
            decreases len - i,
        {
            out.push(self.data[start + i]);
            i = i + 1;
            assert(out@ =~= self.data@.subrange(start as int, start + i));
        }
        Ok(out)
    }

    fn metadata(&self) -> (r: PhysicalMemoryMetadata) {
        PhysicalMemoryMetadata { size: self.data.len(), readonly: false }
    }
}

impl<'a, P: PhysicalMemory> PhysicalMemory for &'a P {
    open spec fn phys_view(&self) -> Seq<u8> {
        (**self).phys_view()
    }

    fn phys_read(&self, pa: u64, len: usize) -> (r: Result<Vec<u8>, Error>) {
        (**self).phys_read(pa, len)
    }

    fn metadata(&self) -> (r: PhysicalMemoryMetadata) {
        (**self).metadata()
    }
}

} // verus!
