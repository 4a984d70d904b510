//! Physical and virtual addresses.

use vstd::prelude::*;

pub mod frame_allocator;
pub mod page_table;
pub mod paging;
pub mod paging_laws;

verus! {

/// Offset at which all of physical memory is mapped into the virtual
/// address space.
pub const PHYS_MEM_OFFSET: u64 = 0x200_0000_0000;

/// Size of a page and of a physical frame, in bytes.
pub const PAGE_SIZE: u64 = 4096;

/// First value that is no longer a physical address: only the low 54 bits
/// of one may be set.
pub const PHYS_ADDR_LIMIT: u64 = 0x40_0000_0000_0000;

/// Whether `addr` lies on a page boundary.
pub open spec fn page_aligned(addr: u64) -> bool {
    addr % PAGE_SIZE == 0
}

/// Whether `addr` can be a physical address.
pub open spec fn phys_addr_valid(addr: u64) -> bool {
    addr < PHYS_ADDR_LIMIT
}

/// A virtual address.
#[derive(Clone, Copy, Debug)]
pub struct VirtAddr(u64);

impl View for VirtAddr {
    type V = u64;

    closed spec fn view(&self) -> u64 {
        self.0
    }
}

impl VirtAddr {
    /// Wraps `addr`.
    pub fn new(addr: u64) -> (res: Self)
        ensures
            res@ == addr,
    {
        Self(addr)
    }

    /// The address as a number.
    pub fn as_u64(&self) -> (res: u64)
        ensures
            res == self@,
    {
        self.0
    }

    /// Whether the address lies on a page boundary.
    pub fn is_page_aligned(&self) -> (res: bool)
        ensures
            res == page_aligned(self@),
    {
        self.0 % PAGE_SIZE == 0
    }
}

/// A physical address. Every value of this type has its top ten bits
/// clear.
#[derive(Clone, Copy, Debug)]
pub struct PhysAddr(u64);

impl View for PhysAddr {
    type V = u64;

    closed spec fn view(&self) -> u64 {
        self.0
    }
}

impl PhysAddr {
    #[verifier::type_invariant]
    spec fn inv(self) -> bool {
        phys_addr_valid(self.0)
    }

    /// Wraps `addr`, which must have its top ten bits clear.
    pub fn new(addr: u64) -> (res: Self)
        requires
            phys_addr_valid(addr),
        ensures
            res@ == addr,
    {
        Self(addr)
    }

    /// Wraps `addr` if its top ten bits are clear, and refuses it otherwise.
    pub fn try_new(addr: u64) -> (res: Option<Self>)
        ensures
            res is Some <==> phys_addr_valid(addr),
            res is Some ==> res->0@ == addr,
    {
        if addr < PHYS_ADDR_LIMIT {
            Some(Self(addr))
        } else {
            None
        }
    }

    /// The address as a number.
    pub fn as_u64(&self) -> (res: u64)
        ensures
            res == self@,
            phys_addr_valid(res),
    {
        proof {
            use_type_invariant(self);
        }
        self.0
    }

    /// The virtual address at which this physical address can be reached.
    pub fn to_virt(&self) -> (res: VirtAddr)
        ensures
            res@ == self@ + PHYS_MEM_OFFSET,
    {
        proof {
            use_type_invariant(self);
        }
        VirtAddr::new(self.0 + PHYS_MEM_OFFSET)
    }

    /// Whether the address lies on a page boundary.
    pub fn is_page_aligned(&self) -> (res: bool)
        ensures
            res == page_aligned(self@),
    {
        self.0 % PAGE_SIZE == 0
    }
}

} // verus!
