use vstd::prelude::*;

verus! {

/// A guest address, physical or virtual. Zero is the null address.
#[derive(Clone, Copy, PartialEq, Eq, Structural, Debug, Hash)]
pub struct Address(pub u64);

/// `a` moved by `off` bytes, or `None` past the end of the address space.
pub open spec fn spec_checked_add(a: Address, off: u64) -> Option<Address> {
    if a.0 + off > u64::MAX {
        None
    } else {
        Some(Address((a.0 + off) as u64))
    }
}

impl Address {
    pub open spec fn view(self) -> u64 {
        self.0
    }

    pub fn new(v: u64) -> (r: Address)
        ensures
            r.0 == v,
    {
        Address(v)
    }

    pub fn null() -> (r: Address)
        ensures
            r.0 == 0,
    {
        Address(0)
    }

    pub fn is_null(self) -> (r: bool)
        ensures
            r == (self.0 == 0),
    {
        self.0 == 0
    }

    pub fn as_u64(self) -> (r: u64)
        ensures
            r == self.0,
    {
        self.0
    }

    /// This address moved by `off` bytes, wrapping at the end of the address space.
    pub fn wrapping_add(self, off: u64) -> (r: Address)
        ensures
            r.0 as int == (self.0 as int + off as int) % 0x1_0000_0000_0000_0000,
    {
        Address(self.0.wrapping_add(off))
    }

    /// This address moved by `off` bytes, or `None` past the end of the address space.
    pub fn checked_add(self, off: u64) -> (r: Option<Address>)
        ensures
            r == spec_checked_add(self, off),
    {
        match self.0.checked_add(off) {
            Some(v) => Some(Address(v)),
            None => None,
        }
    }

    /// The start of the page of `page_size` bytes that holds this address.
    pub fn page_align_down(self, page_size: u64) -> (r: Address)
        requires
            page_size > 0,
        ensures
            r.0 as int == self.0 as int - self.0 as int % page_size as int,
    {
        let v = self.0;
        assert(v % page_size <= v) by (nonlinear_arith)
            requires
                page_size > 0,
        ;
        Address(v - v % page_size)
    }

    /// The offset of this address within its page of `page_size` bytes.
    pub fn page_offset(self, page_size: u64) -> (r: u64)
        requires
            page_size > 0,
        ensures
            r == self.0 % page_size,
    {
        self.0 % page_size
    }
}

} // verus!
