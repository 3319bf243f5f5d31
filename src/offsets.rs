use vstd::prelude::*;

use crate::architecture::Architecture;

verus! {

/// Byte offsets into the loader structures of a process, by pointer width.
#[derive(Clone, Copy, PartialEq, Eq, Structural, Debug)]
pub struct Win32ArchOffsets {
    /// `PEB.Ldr`
    pub peb_ldr: u64,
    /// `PEB_LDR_DATA.InLoadOrderModuleList`
    pub ldr_list: u64,
    /// `LDR_DATA_TABLE_ENTRY.DllBase`
    pub ldr_data_base: u64,
    /// `LDR_DATA_TABLE_ENTRY.SizeOfImage`
    pub ldr_data_size: u64,
    /// `LDR_DATA_TABLE_ENTRY.FullDllName`
    pub ldr_data_full_name: u64,
    /// `LDR_DATA_TABLE_ENTRY.BaseDllName`
    pub ldr_data_base_name: u64,
}

impl Win32ArchOffsets {
    /// The layout for the code of `arch`: the 32-bit one for both 32-bit modes.
    pub open spec fn spec_from(arch: Architecture) -> Win32ArchOffsets {
        if arch.spec_pointer_width() == 4 {
            Win32ArchOffsets {
                peb_ldr: 0xc,
                ldr_list: 0xc,
                ldr_data_base: 0x18,
                ldr_data_size: 0x20,
                ldr_data_full_name: 0x24,
                ldr_data_base_name: 0x2c,
            }
        } else {
            Win32ArchOffsets {
                peb_ldr: 0x18,
                ldr_list: 0x10,
                ldr_data_base: 0x30,
                ldr_data_size: 0x40,
                ldr_data_full_name: 0x48,
                ldr_data_base_name: 0x58,
            }
        }
    }

    pub fn from(arch: Architecture) -> (r: Win32ArchOffsets)
        ensures
            r == Self::spec_from(arch),
    {
        if arch.pointer_width() == 4 {
            Win32ArchOffsets {
                peb_ldr: 0xc,
                ldr_list: 0xc,
                ldr_data_base: 0x18,
                ldr_data_size: 0x20,
                ldr_data_full_name: 0x24,
                ldr_data_base_name: 0x2c,
            }
        } else {
            Win32ArchOffsets {
                peb_ldr: 0x18,
                ldr_list: 0x10,
                ldr_data_base: 0x30,
                ldr_data_size: 0x40,
                ldr_data_full_name: 0x48,
                ldr_data_base_name: 0x58,
            }
        }
    }
}

} // verus!
