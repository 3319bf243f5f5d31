use vstd::prelude::*;

use core::marker::PhantomData;

use crate::dataview::Pod;
use crate::error::Error;
use crate::phys::PhysicalMemory;
use crate::types::Address;
use crate::virt::{lemma_virt_read_len, spec_read_bytes, spec_virt_read, VirtualDma};

verus! {

/// A 32-bit pointer into guest memory, tagged with the type it points to.
/// The tag exists at compile time only.
pub struct Pointer32<T: ?Sized> {
    pub address: u32,
    pub phantom_data: PhantomData<T>,
}

impl<T: ?Sized> Clone for Pointer32<T> {
    fn clone(&self) -> (r: Self)
        ensures
            r == *self,
    {
        *self
    }
}

impl<T: ?Sized> Copy for Pointer32<T> {

}

impl<T: ?Sized> Default for Pointer32<T> {
    /// The null pointer.
    fn default() -> (r: Self)
        ensures
            r.address == 0,
    {
        Pointer32 { address: 0, phantom_data: PhantomData }
    }
}

impl<T: ?Sized> PartialEq for Pointer32<T> {
    fn eq(&self, rhs: &Pointer32<T>) -> (r: bool) {
        self.address == rhs.address
    }
}

impl<T: ?Sized> vstd::std_specs::cmp::PartialEqSpecImpl for Pointer32<T> {
    open spec fn obeys_eq_spec() -> bool {
        true
    }

    open spec fn eq_spec(&self, rhs: &Pointer32<T>) -> bool {
        self.address == rhs.address
    }
}

impl<T: ?Sized> Eq for Pointer32<T> {

}

impl<T: ?Sized> PartialOrd for Pointer32<T> {
    fn partial_cmp(&self, rhs: &Pointer32<T>) -> (r: Option<core::cmp::Ordering>) {
        if self.address < rhs.address {
            Some(core::cmp::Ordering::Less)
        } else if self.address > rhs.address {
            Some(core::cmp::Ordering::Greater)
        } else {
            Some(core::cmp::Ordering::Equal)
        }
    }
}

impl<T: ?Sized> vstd::std_specs::cmp::PartialOrdSpecImpl for Pointer32<T> {
    open spec fn obeys_partial_cmp_spec() -> bool {
        true
    }

    open spec fn partial_cmp_spec(&self, rhs: &Pointer32<T>) -> Option<core::cmp::Ordering> {
        if self.address < rhs.address {
            Some(core::cmp::Ordering::Less)
        } else if self.address > rhs.address {
            Some(core::cmp::Ordering::Greater)
        } else {
            Some(core::cmp::Ordering::Equal)
        }
    }
}

impl<T: ?Sized> AsRef<u32> for Pointer32<T> {
    fn as_ref(&self) -> &u32 {
        &self.address
    }
}

impl<T: ?Sized> AsMut<u32> for Pointer32<T> {
    fn as_mut(&mut self) -> &mut u32 {
        &mut self.address
    }
}

impl<T: ?Sized> From<Pointer32<T>> for Address {
    fn from(ptr: Pointer32<T>) -> (r: Address) {
        Address(ptr.address as u64)
    }
}

impl<T: ?Sized> vstd::std_specs::convert::FromSpecImpl<Pointer32<T>> for Address {
    open spec fn obeys_from_spec() -> bool {
        true
    }

    open spec fn from_spec(ptr: Pointer32<T>) -> Address {
        Address(ptr.address as u64)
    }
}

impl<T: ?Sized> From<Pointer32<T>> for u32 {
    fn from(ptr: Pointer32<T>) -> (r: u32) {
        ptr.address
    }
}

impl<T: ?Sized> vstd::std_specs::convert::FromSpecImpl<Pointer32<T>> for u32 {
    open spec fn obeys_from_spec() -> bool {
        true
    }

    open spec fn from_spec(ptr: Pointer32<T>) -> u32 {
        ptr.address
    }
}

impl<T: ?Sized> From<Pointer32<T>> for u64 {
    fn from(ptr: Pointer32<T>) -> (r: u64) {
        ptr.address as u64
    }
}

impl<T: ?Sized> vstd::std_specs::convert::FromSpecImpl<Pointer32<T>> for u64 {
    open spec fn obeys_from_spec() -> bool {
        true
    }

    open spec fn from_spec(ptr: Pointer32<T>) -> u64 {
        ptr.address as u64
    }
}

/// `v` with its four bytes in reverse order.
pub open spec fn spec_swap_bytes(v: u32) -> u32 {
    ((v & 0xff) << 24u32) | (((v >> 8u32) & 0xff) << 16u32) | (((v >> 16u32) & 0xff) << 8u32) | (v
        >> 24u32)
}

impl<T: ?Sized> Pointer32<T> {
    /// Reverses the byte order of the pointer, for a guest of the other endianness.
    pub fn byte_swap(&mut self)
        ensures
            final(self).address == spec_swap_bytes(old(self).address),
    {
        let v = self.address;
        self.address = ((v & 0xff) << 24u32) | (((v >> 8u32) & 0xff) << 16u32) | (((v >> 16u32)
            & 0xff) << 8u32) | (v >> 24u32);
    }

    /// A pointer at `address`.
    pub fn from(address: u32) -> (r: Self)
        ensures
            r.address == address,
    {
        Pointer32 { address, phantom_data: PhantomData }
    }

    /// A pointer at `address`, which must fit in 32 bits.
    pub fn try_from(address: u64) -> (r: Result<Self, Error>)
        ensures
            address <= u32::MAX ==> r.is_ok() && r.unwrap().address == address,
            address > u32::MAX ==> r == Err::<Self, Error>(Error::OutOfBounds),
    {
        if address <= u32::MAX as u64 {
            Ok(Pointer32 { address: address as u32, phantom_data: PhantomData })
        } else {
            Err(Error::OutOfBounds)
        }
    }

    /// A pointer at the guest address `address`, which must fit in 32 bits.
    pub fn try_from_address(address: Address) -> (r: Result<Self, Error>)
        ensures
            address.0 <= u32::MAX ==> r.is_ok() && r.unwrap().address == address.0,
            address.0 > u32::MAX ==> r == Err::<Self, Error>(Error::OutOfBounds),
    {
        Self::try_from(address.0)
    }

    /// The null pointer.
    pub fn null() -> (r: Self)
        ensures
            r.address == 0,
    {
        Pointer32 { address: 0, phantom_data: PhantomData }
    }

    pub fn is_null(self) -> (r: bool)
        ensures
            r == (self.address == 0),
    {
        self.address == 0
    }

    /// `None` for the null pointer, else the pointer.
    pub fn non_null(self) -> (r: Option<Self>)
        ensures
            self.address == 0 ==> r.is_none(),
            self.address != 0 ==> r == Some(self),
    {
        if self.is_null() {
            None
        } else {
            Some(self)
        }
    }

    pub fn as_u32(self) -> (r: u32)
        ensures
            r == self.address,
    {
        self.address
    }

    pub fn as_u64(self) -> (r: u64)
        ensures
            r == self.address,
    {
        self.address as u64
    }

    pub fn as_usize(self) -> (r: usize)
        ensures
            r == self.address,
    {
        self.address as usize
    }

    /// The raw value of the pointer; the same as `as_u32`.
    pub fn into_raw(self) -> (r: u32)
        ensures
            r == self.address,
    {
        self.address
    }

    /// The guest address that the pointer holds.
    pub fn as_address(self) -> (r: Address)
        ensures
            r.0 == self.address,
    {
        Address(self.address as u64)
    }
}

/// The byte offset of element `i` of `size` bytes each.
fn elem_offset(i: usize, size: usize) -> (r: u128)
    ensures
        r == i * size,
        r < 0xffff_ffff_ffff_ffff_0000_0000_0000_0000u128,
{
    assert(i * size < 0xffff_ffff_ffff_ffff_0000_0000_0000_0000u128) by (nonlinear_arith)
        requires
            i <= 0xffff_ffff_ffff_ffffu128,
            size <= 0xffff_ffff_ffff_ffffu128,
    ;
    i as u128 * size as u128
}

/// The address `i` elements of `size` bytes past `address`, saturated at the 32-bit limit.
pub open spec fn spec_add_elems(address: u32, i: nat, size: nat) -> u32 {
    if address + i * size > u32::MAX {
        u32::MAX
    } else {
        (address + i * size) as u32
    }
}

/// The address `i` elements of `size` bytes before `address`, saturated at zero.
pub open spec fn spec_sub_elems(address: u32, i: nat, size: nat) -> u32 {
    if address - i * size < 0 {
        0
    } else {
        (address - i * size) as u32
    }
}

/// Moving a pointer `i` elements forward and then back gives it back, when
/// the forward move stays within 32 bits.
pub proof fn lemma_add_sub_round_trip(address: u32, i: nat, size: nat)
    requires
        address + i * size <= u32::MAX,
    ensures
        spec_sub_elems(spec_add_elems(address, i, size), i, size) == address,
{
}

impl<T> Pointer32<T> {
    /// The pointer moved `i` elements forward, saturated at the 32-bit limit.
    pub fn add(self, i: usize) -> (r: Self)
        ensures
            r.address == spec_add_elems(self.address, i as nat, vstd::layout::size_of::<T>()),
    {
        let step = elem_offset(i, core::mem::size_of::<T>());
        let sum: u128 = self.address as u128 + step;
        let address: u32 = if sum > u32::MAX as u128 {
            u32::MAX
        } else {
            sum as u32
        };
        Pointer32 { address, phantom_data: PhantomData }
    }

    /// The pointer moved `i` elements back, saturated at zero.
    pub fn sub(self, i: usize) -> (r: Self)
        ensures
            r.address == spec_sub_elems(self.address, i as nat, vstd::layout::size_of::<T>()),
    {
        let step = elem_offset(i, core::mem::size_of::<T>());
        let address: u32 = if step > self.address as u128 {
            0
        } else {
            (self.address as u128 - step) as u32
        };
        Pointer32 { address, phantom_data: PhantomData }
    }
}

impl<T> core::ops::Add<usize> for Pointer32<T> {
    type Output = Pointer32<T>;

    fn add(self, other: usize) -> Pointer32<T> {
        Pointer32::<T>::add(self, other)
    }
}

impl<T> vstd::std_specs::ops::AddSpecImpl<usize> for Pointer32<T> {
    open spec fn obeys_add_spec() -> bool {
        true
    }

    open spec fn add_req(self, rhs: usize) -> bool {
        true
    }

    open spec fn add_spec(self, rhs: usize) -> Pointer32<T> {
        Pointer32 {
            address: spec_add_elems(self.address, rhs as nat, vstd::layout::size_of::<T>()),
            phantom_data: PhantomData,
        }
    }
}

impl<T> vstd::std_specs::ops::SubSpecImpl<usize> for Pointer32<T> {
    open spec fn obeys_sub_spec() -> bool {
        true
    }

    open spec fn sub_req(self, rhs: usize) -> bool {
        true
    }

    open spec fn sub_spec(self, rhs: usize) -> Pointer32<T> {
        Pointer32 {
            address: spec_sub_elems(self.address, rhs as nat, vstd::layout::size_of::<T>()),
            phantom_data: PhantomData,
        }
    }
}

impl<T> core::ops::Sub<usize> for Pointer32<T> {
    type Output = Pointer32<T>;

    fn sub(self, other: usize) -> Pointer32<T> {
        Pointer32::<T>::sub(self, other)
    }
}

impl<T> Pointer32<[T]> {
    /// The pointer to the first element of the array.
    pub fn decay(self) -> (r: Pointer32<T>)
        ensures
            r.address == self.address,
    {
        Pointer32 { address: self.address, phantom_data: PhantomData }
    }

    /// The pointer to element `i` of the array.
    pub fn at(self, i: usize) -> (r: Pointer32<T>)
        requires
            self.address + i * vstd::layout::size_of::<T>() <= u32::MAX,
        ensures
            r.address == self.address + i * vstd::layout::size_of::<T>(),
    {
        let step = elem_offset(i, core::mem::size_of::<T>());
        Pointer32 { address: (self.address as u128 + step) as u32, phantom_data: PhantomData }
    }
}

/// What a `T` read at `address` through a view holds.
pub open spec fn spec_deref<T: Pod, P: PhysicalMemory>(mem: &VirtualDma<P>, address: u32) -> Result<
    T,
    Error,
> {
    match spec_read_bytes(mem.mem(), mem.arch, mem.dtb.0, address as u64, T::spec_size()) {
        Ok(b) => Ok(T::spec_from_le(b)),
        Err(e) => Err(e),
    }
}

impl<T: Pod> Pointer32<T> {
    /// Reads the value that the pointer points to.
    pub fn deref<P: PhysicalMemory>(self, mem: &VirtualDma<P>) -> (r: Result<T, Error>)
        ensures
            r == spec_deref::<T, P>(mem, self.address),
    {
        let b = mem.virt_read_exact(Address(self.address as u64), T::byte_size())?;
        Ok(T::from_le(&b))
    }

    /// Reads the value that the pointer points to into `out`. On a partial
    /// read `out` takes the bytes that came through, with zeros in the failed
    /// fragments, and the error names the first failed fragment; the whole
    /// list of them is what `VirtualDma::virt_read` gives. `out` is left as it
    /// was only when the value would run past the end of the address space.
    pub fn deref_into<P: PhysicalMemory>(self, mem: &VirtualDma<P>, out: &mut T) -> (r: Result<
        (),
        Error,
    >)
        ensures
            self.address + T::spec_size() > u64::MAX + 1 ==> r == Err::<(), Error>(
                Error::OutOfBounds,
            ) && *final(out) == *old(out),
            self.address + T::spec_size() <= u64::MAX + 1 ==> ({
                let rd = spec_virt_read(
                    mem.mem(),
                    mem.arch,
                    mem.dtb.0,
                    self.address as u64,
                    T::spec_size(),
                );
                &&& *final(out) == T::spec_from_le(rd.0)
                &&& r == if rd.1.len() == 0 {
                    Ok::<(), Error>(())
                } else {
                    Err(Error::Partial(rd.1[0]))
                }
            }),
    {
        let n = T::byte_size();
        if self.address as u128 + n as u128 > u64::MAX as u128 + 1 {
            return Err(Error::OutOfBounds);
        }
        let rd = mem.virt_read(Address(self.address as u64), n);
        proof {
            lemma_virt_read_len(mem.mem(), mem.arch, mem.dtb.0, self.address as int, 0, n as int);
        }
        *out = T::from_le(&rd.data);
        if rd.failed.len() == 0 {
            Ok(())
        } else {
            Err(Error::Partial(rd.failed[0]))
        }
    }
}

} // verus!
