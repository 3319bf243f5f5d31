use vstd::prelude::*;

use crate::architecture::Architecture;
use crate::types::Address;

verus! {

/// What kernel discovery found: the paging mode, the kernel's top page
/// table, and where the kernel image may start (zero when unknown).
#[derive(Clone, Copy, PartialEq, Eq, Structural, Debug)]
pub struct StartBlock {
    pub arch: Architecture,
    pub kernel_hint: Address,
    pub dtb: Address,
}

} // verus!
