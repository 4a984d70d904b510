//! Page-table entries and page tables.

use vstd::prelude::*;
use super::PhysAddr;

verus! {

/// The page or table that the entry names is there: bit 0.
pub const PRESENT: u64 = 0x1;
/// Writes through the entry are allowed: bit 1.
pub const WRITABLE: u64 = 0x2;
/// Code in ring 3 may use the entry: bit 2.
pub const USER_ACCESSIBLE: u64 = 0x4;
/// Writes go straight to memory: bit 3.
pub const WRITE_THROUGH: u64 = 0x8;
/// The page is not cached: bit 4.
pub const DISABLE_CACHE: u64 = 0x10;
/// The processor has used the entry: bit 5.
pub const ACCESSED: u64 = 0x20;
/// The processor has written to the page: bit 6.
pub const DIRTY: u64 = 0x40;
/// The entry names a huge page, not a table: bit 7.
pub const HUGE: u64 = 0x80;
/// The page stays in the translation cache across address spaces: bit 8.
pub const GLOBAL: u64 = 0x100;
/// Code on the page may not be run: bit 63.
pub const NON_EXECUTABLE: u64 = 0x8000_0000_0000_0000;

/// The bits of an entry that hold the frame address: bits 12 to 51.
pub const PHYS_ADDR_MASK: u64 = 0x000f_ffff_ffff_f000;

/// Whether any bit of `flag` is set in `bits`.
pub open spec fn flag_set(bits: u64, flag: u64) -> bool {
    bits & flag != 0
}

/// `bits` with the bits of `flag` switched on or off.
pub open spec fn with_flag(bits: u64, flag: u64, on: bool) -> u64 {
    if on {
        bits | flag
    } else {
        bits & !flag
    }
}

/// The frame address held in `bits`.
pub open spec fn frame_of(bits: u64) -> u64 {
    bits & PHYS_ADDR_MASK
}

/// Whether `addr` can be stored in an entry: page aligned and below 2^52.
pub open spec fn frame_encodable(addr: u64) -> bool {
    addr & !PHYS_ADDR_MASK == 0
}

/// `bits` with its frame address replaced by `addr`.
pub open spec fn with_frame(bits: u64, addr: u64) -> u64 {
    (bits & !PHYS_ADDR_MASK) | addr
}

/// One 64-bit entry of a page table.
#[derive(Clone, Copy)]
pub struct PageTableEntry(u64);

impl View for PageTableEntry {
    type V = u64;

    closed spec fn view(&self) -> u64 {
        self.0
    }
}

impl PageTableEntry {
    /// The entry with the given raw bits.
    pub fn new(bits: u64) -> (res: Self)
        ensures
            res@ == bits,
    {
        Self(bits)
    }

    /// The raw bits of the entry.
    pub fn bits(&self) -> (res: u64)
        ensures
            res == self@,
    {
        self.0
    }

    /// The frame address that the entry holds.
    pub fn addr(&self) -> (res: PhysAddr)
        ensures
            res@ == frame_of(self@),
    {
        let bits = self.0;
        assert(bits & PHYS_ADDR_MASK < 0x40_0000_0000_0000) by (bit_vector);
        PhysAddr::new(bits & PHYS_ADDR_MASK)
    }

    /// Replaces the frame address and leaves the flags. The address must be
    /// page aligned and below 2^52.
    pub fn set_addr(&mut self, addr: PhysAddr) -> (ret: &mut Self)
        requires
            frame_encodable(addr@),
        ensures
            ret@ == with_frame(old(self)@, addr@),
            *final(self) == *final(ret),
    {
        self.0 = (self.0 & !PHYS_ADDR_MASK) | addr.as_u64();
        self
    }

    /// Whether every bit of the entry is clear.
    pub fn unused(&self) -> (res: bool)
        ensures
            res == (self@ == 0),
    {
        self.0 == 0
    }

    /// Whether the present flag is set.
    pub fn present(&self) -> (res: bool)
        ensures
            res == flag_set(self@, PRESENT),
    {
        self.is_bit_set(PRESENT)
    }

    /// Whether the writable flag is set.
    pub fn writable(&self) -> (res: bool)
        ensures
            res == flag_set(self@, WRITABLE),
    {
        self.is_bit_set(WRITABLE)
    }

    /// Whether the user-accessible flag is set.
    pub fn user_accessible(&self) -> (res: bool)
        ensures
            res == flag_set(self@, USER_ACCESSIBLE),
    {
        self.is_bit_set(USER_ACCESSIBLE)
    }

    /// Whether the accessed flag is set.
    pub fn accessed(&self) -> (res: bool)
        ensures
            res == flag_set(self@, ACCESSED),
    {
        self.is_bit_set(ACCESSED)
    }

    /// Whether the dirty flag is set.
    pub fn dirty(&self) -> (res: bool)
        ensures
            res == flag_set(self@, DIRTY),
    {
        self.is_bit_set(DIRTY)
    }

    /// Whether the non-executable flag is set.
    pub fn non_executable(&self) -> (res: bool)
        ensures
            res == flag_set(self@, NON_EXECUTABLE),
    {
        self.is_bit_set(NON_EXECUTABLE)
    }

    /// Switches the present flag on or off.
    pub fn set_present(&mut self, b: bool) -> (ret: &mut Self)
        ensures
            ret@ == with_flag(old(self)@, PRESENT, b),
            *final(self) == *final(ret),
    {
        self.set_bit(PRESENT, b)
    }

    /// Switches the writable flag on or off.
    pub fn set_writable(&mut self, b: bool) -> (ret: &mut Self)
        ensures
            ret@ == with_flag(old(self)@, WRITABLE, b),
            *final(self) == *final(ret),
    {
        self.set_bit(WRITABLE, b)
    }

    /// Switches the user-accessible flag on or off.
    pub fn set_user_accessible(&mut self, b: bool) -> (ret: &mut Self)
        ensures
            ret@ == with_flag(old(self)@, USER_ACCESSIBLE, b),
            *final(self) == *final(ret),
    {
        self.set_bit(USER_ACCESSIBLE, b)
    }

    /// Switches the non-executable flag on or off.
    pub fn set_non_executable(&mut self, b: bool) -> (ret: &mut Self)
        ensures
            ret@ == with_flag(old(self)@, NON_EXECUTABLE, b),
            *final(self) == *final(ret),
    {
        self.set_bit(NON_EXECUTABLE, b)
    }

    /// Whether any bit of `bit` is set in the entry.
    fn is_bit_set(&self, bit: u64) -> (res: bool)
        ensures
            res == flag_set(self@, bit),
    {
        self.0 & bit != 0
    }

    /// Switches the bits of `bit` on or off.
    fn set_bit(&mut self, bit: u64, b: bool) -> (ret: &mut Self)
        ensures
            ret@ == with_flag(old(self)@, bit, b),
            *final(self) == *final(ret),
    {
        if b {
            self.0 = self.0 | bit;
        } else {
            self.0 = self.0 & !bit;
        }
        self
    }
}

/// Whether `flag` is one of the ten flag bits of an entry.
pub open spec fn is_flag(flag: u64) -> bool {
    flag == PRESENT || flag == WRITABLE || flag == USER_ACCESSIBLE || flag == WRITE_THROUGH
        || flag == DISABLE_CACHE || flag == ACCESSED || flag == DIRTY || flag == HUGE || flag
        == GLOBAL || flag == NON_EXECUTABLE
}

/// An entry whose bits are all clear has no flag set and holds frame 0,
/// and an entry with any flag set is not all clear.
pub proof fn lemma_clear_entry(bits: u64, flag: u64)
    by (bit_vector)
    ensures
        !flag_set(0, flag),
        frame_of(0) == 0,
        flag_set(bits, flag) ==> bits != 0,
{
}

/// Switching a flag on or off is what its getter then reports.
pub proof fn lemma_flag_round_trip(bits: u64, flag: u64, on: bool)
    by (bit_vector)
    requires
        is_flag(flag),
    ensures
        flag_set(with_flag(bits, flag, on), flag) == on,
{
}

/// Switching one flag leaves every other flag and the frame address as
/// they were.
pub proof fn lemma_flag_independent(bits: u64, flag: u64, other: u64, on: bool)
    by (bit_vector)
    requires
        is_flag(flag),
        is_flag(other),
        flag != other,
    ensures
        flag_set(with_flag(bits, flag, on), other) == flag_set(bits, other),
        frame_of(with_flag(bits, flag, on)) == frame_of(bits),
{
}

/// Storing a frame address gives that address back and leaves every flag
/// as it was.
pub proof fn lemma_frame_round_trip(bits: u64, addr: u64, flag: u64)
    by (bit_vector)
    requires
        frame_encodable(addr),
        is_flag(flag),
    ensures
        frame_of(with_frame(bits, addr)) == addr,
        flag_set(with_frame(bits, addr), flag) == flag_set(bits, flag),
{
}

/// A frame address read from an entry is page aligned, below 2^52, and can
/// be stored again.
pub proof fn lemma_frame_of_bounds(bits: u64)
    by (bit_vector)
    ensures
        frame_of(bits) % 4096 == 0,
        frame_of(bits) < 0x10_0000_0000_0000,
        frame_encodable(frame_of(bits)),
{
}

/// Splits the value of the page-table base register into the frame of the
/// root table and the flag bits around it.
pub fn cr3(value: u64) -> (res: (u64, u64))
    ensures
        res.0 == frame_of(value),
        res.1 == value & !PHYS_ADDR_MASK,
{
    (value & PHYS_ADDR_MASK, value & !PHYS_ADDR_MASK)
}

/// Number of entries in a page table.
pub const ENTRY_COUNT: usize = 512;

/// One page table: 512 entries, the size of a frame.
pub struct PageTable {
    entries: [PageTableEntry; 512],
}

impl View for PageTable {
    type V = Seq<u64>;

    closed spec fn view(&self) -> Seq<u64> {
        Seq::new(512, |i: int| self.entries[i]@)
    }
}

impl PageTable {
    /// A table of 512 unused entries.
    pub fn new() -> (res: Self)
        ensures
            res@ == Seq::new(512, |i: int| 0u64),
    {
        let res = Self { entries: [PageTableEntry(0);512] };
        assert(res@ =~= Seq::new(512, |i: int| 0u64));
        res
    }

    /// The entry at `index`.
    pub fn entry(&self, index: usize) -> (res: PageTableEntry)
        requires
            index < ENTRY_COUNT,
        ensures
            res@ == self@[index as int],
    {
        self.entries[index]
    }

    /// Replaces the entry at `index`.
    pub fn set_entry(&mut self, index: usize, entry: PageTableEntry)
        requires
            index < ENTRY_COUNT,
        ensures
            final(self)@ == old(self)@.update(index as int, entry@),
    {
        self.entries[index] = entry;
        assert(self@ =~= old(self)@.update(index as int, entry@));
    }
}

/// A table always has 512 entries.
pub proof fn lemma_table_len(table: PageTable)
    ensures
        table@.len() == 512,
{
}

} // verus!
