use vstd::prelude::*;

verus! {

/// The four paging modes of the guest.
#[derive(Clone, Copy, PartialEq, Eq, Structural, Debug, Hash)]
pub enum Architecture {
    /// 32-bit, two levels of 4-byte entries.
    X86,
    /// 32-bit with physical address extension: three levels of 8-byte entries.
    X86Pae,
    /// 4-level long mode.
    X64,
    /// 5-level long mode.
    X64La57,
}

/// Size of the smallest page, in bytes, in every mode.
pub const PAGE_SIZE: u64 = 0x1000;

/// Present bit of a page-table entry.
pub const PTE_PRESENT: u64 = 0x1;

/// Large-page bit of a page-table entry.
pub const PTE_LARGE: u64 = 0x80;

impl Architecture {
    /// Number of table levels; level 1 is the last table, which maps 4 KiB pages.
    pub open spec fn spec_levels(self) -> nat {
        match self {
            Architecture::X86 => 2,
            Architecture::X86Pae => 3,
            Architecture::X64 => 4,
            Architecture::X64La57 => 5,
        }
    }

    /// Size of a page-table entry, in bytes.
    pub open spec fn spec_pte_size(self) -> nat {
        match self {
            Architecture::X86 => 4,
            _ => 8,
        }
    }

    /// Size of a pointer, in bytes.
    pub open spec fn spec_pointer_width(self) -> nat {
        match self {
            Architecture::X86 | Architecture::X86Pae => 4,
            _ => 8,
        }
    }

    /// Lowest bit of the virtual address that indexes the table at `level`.
    pub open spec fn spec_index_shift(self, level: nat) -> u64 {
        match self {
            Architecture::X86 => (12 + 10 * (level - 1)) as u64,
            _ => (12 + 9 * (level - 1)) as u64,
        }
    }

    /// Mask of the index into the table at `level`, once shifted down.
    pub open spec fn spec_index_mask(self, level: nat) -> u64 {
        match self {
            Architecture::X86 => 0x3ff,
            Architecture::X86Pae => if level == 3 { 0x3 } else { 0x1ff },
            _ => 0x1ff,
        }
    }

    /// Mask of the physical frame bits of an entry.
    pub open spec fn spec_frame_mask(self) -> u64 {
        match self {
            Architecture::X86 => 0xffff_f000,
            _ => 0x000f_ffff_ffff_f000,
        }
    }

    /// Whether an entry at `level` may map a large page.
    pub open spec fn spec_large_allowed(self, level: nat) -> bool {
        match self {
            Architecture::X86 | Architecture::X86Pae => level == 2,
            _ => level == 2 || level == 3,
        }
    }

    /// Index into the table at `level` for the virtual address `va`.
    pub open spec fn spec_index(self, level: nat, va: u64) -> u64 {
        (va >> self.spec_index_shift(level)) & self.spec_index_mask(level)
    }

    /// Mask of the offset bits of `va` within a page mapped at `level`.
    pub open spec fn spec_offset_mask(self, level: nat) -> u64 {
        ((1u64 << self.spec_index_shift(level)) - 1) as u64
    }

    /// The physical address that `entry`, found at `level`, gives for `va`.
    pub open spec fn spec_entry_pa(self, level: nat, entry: u64, va: u64) -> u64 {
        (entry & self.spec_frame_mask() & !self.spec_offset_mask(level)) | (va
            & self.spec_offset_mask(level))
    }

    pub fn levels(self) -> (r: usize)
        ensures
            r == self.spec_levels(),
    {
        match self {
            Architecture::X86 => 2,
            Architecture::X86Pae => 3,
            Architecture::X64 => 4,
            Architecture::X64La57 => 5,
        }
    }

    pub fn pte_size(self) -> (r: usize)
        ensures
            r == self.spec_pte_size(),
    {
        match self {
            Architecture::X86 => 4,
            _ => 8,
        }
    }

    pub fn pointer_width(self) -> (r: usize)
        ensures
            r == self.spec_pointer_width(),
    {
        match self {
            Architecture::X86 | Architecture::X86Pae => 4,
            _ => 8,
        }
    }

    pub fn page_size(self) -> (r: u64)
        ensures
            r == PAGE_SIZE,
    {
        PAGE_SIZE
    }

    pub fn index_shift(self, level: usize) -> (r: u64)
        requires
            1 <= level <= self.spec_levels(),
        ensures
            r == self.spec_index_shift(level as nat),
            12 <= r <= 48,
    {
        match self {
            Architecture::X86 => (12 + 10 * (level - 1)) as u64,
            _ => (12 + 9 * (level - 1)) as u64,
        }
    }

    pub fn index_mask(self, level: usize) -> (r: u64)
        ensures
            r == self.spec_index_mask(level as nat),
            r <= 0x3ff,
    {
        match self {
            Architecture::X86 => 0x3ff,
            Architecture::X86Pae => if level == 3 {
                0x3
            } else {
                0x1ff
            },
            _ => 0x1ff,
        }
    }

    pub fn frame_mask(self) -> (r: u64)
        ensures
            r == self.spec_frame_mask(),
    {
        match self {
            Architecture::X86 => 0xffff_f000,
            _ => 0x000f_ffff_ffff_f000,
        }
    }

    pub fn large_allowed(self, level: usize) -> (r: bool)
        ensures
            r == self.spec_large_allowed(level as nat),
    {
        match self {
            Architecture::X86 | Architecture::X86Pae => level == 2,
            _ => level == 2 || level == 3,
        }
    }

    /// Splits `va` into its index at `level`.
    pub fn index(self, level: usize, va: u64) -> (r: u64)
        requires
            1 <= level <= self.spec_levels(),
        ensures
            r == self.spec_index(level as nat, va),
            r <= 0x3ff,
    {
        let s = self.index_shift(level);
        let m = self.index_mask(level);
        assert((va >> s) & m <= m) by (bit_vector);
        (va >> s) & m
    }

    /// The physical address that a present `entry` at `level` gives for `va`.
    pub fn entry_pa(self, level: usize, entry: u64, va: u64) -> (r: u64)
        requires
            1 <= level <= self.spec_levels(),
        ensures
            r == self.spec_entry_pa(level as nat, entry, va),
    {
        let s = self.index_shift(level);
        assert(1u64 << s >= 1) by (bit_vector)
            requires
                s <= 48,
        ;
        let off_mask: u64 = (1u64 << s) - 1;
        (entry & self.frame_mask() & !off_mask) | (va & off_mask)
    }

    /// Whether the present bit of `entry` is set.
    pub fn is_present(entry: u64) -> (r: bool)
        ensures
            r == (entry & PTE_PRESENT != 0),
    {
        entry & PTE_PRESENT != 0
    }

    /// Whether the large-page bit of `entry` is set.
    pub fn is_large(entry: u64) -> (r: bool)
        ensures
            r == (entry & PTE_LARGE != 0),
    {
        entry & PTE_LARGE != 0
    }
}

} // verus!
