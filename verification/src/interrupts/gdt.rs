//! The global descriptor table and the task state segment.

use vstd::prelude::*;
use super::DescriptorTablePtr;

verus! {

/// Size in bytes of the task state segment as the processor reads it.
pub const TSS_SIZE: u64 = 104;

/// Size in bytes of the stack that is set aside for the double fault
/// handler.
pub const INTERRUPT_STACK_SIZE: u64 = 4096;

/// Number of slots of the interrupt stack table.
pub const IST_SLOTS: usize = 7;

/// The task state segment: three privilege stacks, the interrupt stack
/// table and the offset of the I/O permission map. The reserved fields are
/// kept so that every byte the processor reads has a source.
pub struct TaskSegmentSelector {
    pub reserved1: u32,
    pub rsp: [u64; 3],
    pub reserved2: u64,
    pub ist: [u64; 7],
    pub reserved3: u64,
    pub reserved4: u16,
    pub io_base_ptr: u16,
}

impl TaskSegmentSelector {
    /// A task state segment of zeros.
    pub fn new() -> (res: Self)
        ensures
            res.rsp@ == Seq::new(3, |i: int| 0u64),
            res.ist@ == Seq::new(7, |i: int| 0u64),
            res.io_base_ptr == 0,
            res.reserved1 == 0,
            res.reserved2 == 0,
            res.reserved3 == 0,
            res.reserved4 == 0,
    {
        let res = Self {
            rsp: [0;3],
            ist: [0;7],
            io_base_ptr: 0,
            reserved1: 0,
            reserved2: 0,
            reserved3: 0,
            reserved4: 0,
        };
        assert(res.rsp@ =~= Seq::new(3, |i: int| 0u64));
        assert(res.ist@ =~= Seq::new(7, |i: int| 0u64));
        res
    }

    /// The 104 bytes of the segment as the processor reads them, as 26
    /// little-endian 32-bit words.
    pub fn encode(&self) -> (res: [u32; 26])
        ensures
            forall|i: int| 0 <= i < 26 ==> #[trigger] res@[i] == tss_word(*self, i),
    {
        let mut words = [0u32;26];
        words[0] = self.reserved1;
        let mut k: usize = 0;
        while k < 3
            invariant
                k <= 3,
                words@[0] == tss_word(*self, 0),
                forall|i: int| 1 <= i < 1 + 2 * k ==> #[trigger] words@[i] == tss_word(*self, i),
            decreases 3 - k,
        {
            let pair = halves(self.rsp[k]);
            words[1 + 2 * k] = pair.0;
            words[2 + 2 * k] = pair.1;
            k += 1;
        }
        let reserved2 = halves(self.reserved2);
        words[7] = reserved2.0;
        words[8] = reserved2.1;
        let mut k: usize = 0;
        while k < 7
            invariant
                k <= 7,
                forall|i: int| 0 <= i < 9 ==> #[trigger] words@[i] == tss_word(*self, i),
                forall|i: int| 9 <= i < 9 + 2 * k ==> #[trigger] words@[i] == tss_word(*self, i),
            decreases 7 - k,
        {
            let pair = halves(self.ist[k]);
            words[9 + 2 * k] = pair.0;
            words[10 + 2 * k] = pair.1;
            k += 1;
        }
        let reserved3 = halves(self.reserved3);
        words[23] = reserved3.0;
        words[24] = reserved3.1;
        words[25] = (self.reserved4 as u32) | ((self.io_base_ptr as u32) << 16);
        words
    }

    /// Puts the top of a stack into slot `i` of the interrupt stack table;
    /// the slots are numbered from 1 to 7. The stack occupies `stack_len`
    /// bytes from `stack_base` on, and its top is the first address after
    /// them.
    pub fn set_interrupt_stack(&mut self, i: usize, stack_base: u64, stack_len: u64)
        requires
            1 <= i <= IST_SLOTS,
            stack_base + stack_len <= u64::MAX,
        ensures
            final(self).ist@ == old(self).ist@.update(i - 1, (stack_base + stack_len) as u64),
            final(self).rsp == old(self).rsp,
            final(self).io_base_ptr == old(self).io_base_ptr,
            final(self).reserved1 == old(self).reserved1,
            final(self).reserved2 == old(self).reserved2,
            final(self).reserved3 == old(self).reserved3,
            final(self).reserved4 == old(self).reserved4,
    {
        self.ist[i - 1] = stack_base + stack_len;
        assert(self.ist@ =~= old(self).ist@.update(i - 1, (stack_base + stack_len) as u64));
    }
}

/// Number of 32-bit words that the task state segment takes up.
pub const TSS_WORDS: usize = 26;

/// The low 32 bits of `value`.
pub open spec fn low_half(value: u64) -> u32 {
    (value & 0xffff_ffff) as u32
}

/// The high 32 bits of `value`.
pub open spec fn high_half(value: u64) -> u32 {
    (value >> 32) as u32
}

/// The 64-bit value whose halves are `low` and `high`.
pub open spec fn joined(low: u32, high: u32) -> u64 {
    (low as u64) | ((high as u64) << 32)
}

/// Word `i` of the task state segment as it lies in memory, read as
/// little-endian 32-bit words: the first reserved field in word 0, the
/// three privilege stacks in words 1 to 6, the second reserved field in
/// words 7 and 8, the seven interrupt stacks in words 9 to 22, the third
/// reserved field in words 23 and 24, and in word 25 the last reserved
/// field below the offset of the I/O map. Each 64-bit field has its low
/// half first.
pub open spec fn tss_word(tss: TaskSegmentSelector, i: int) -> u32 {
    if i == 0 {
        tss.reserved1
    } else if i < 7 {
        if (i - 1) % 2 == 0 {
            low_half(tss.rsp@[(i - 1) / 2])
        } else {
            high_half(tss.rsp@[(i - 1) / 2])
        }
    } else if i == 7 {
        low_half(tss.reserved2)
    } else if i == 8 {
        high_half(tss.reserved2)
    } else if i < 23 {
        if (i - 9) % 2 == 0 {
            low_half(tss.ist@[(i - 9) / 2])
        } else {
            high_half(tss.ist@[(i - 9) / 2])
        }
    } else if i == 23 {
        low_half(tss.reserved3)
    } else if i == 24 {
        high_half(tss.reserved3)
    } else {
        (tss.reserved4 as u32) | ((tss.io_base_ptr as u32) << 16)
    }
}

/// Splits `value` into its low and high halves.
fn halves(value: u64) -> (res: (u32, u32))
    ensures
        res.0 == low_half(value),
        res.1 == high_half(value),
{
    assert(value & 0xffff_ffff <= 0xffff_ffff && value >> 32 <= 0xffff_ffff) by (bit_vector);
    ((value & 0xffff_ffff) as u32, (value >> 32) as u32)
}

/// The two halves of a value make up the value again.
pub proof fn lemma_halves_join(value: u64)
    ensures
        joined(low_half(value), high_half(value)) == value,
{
    let low = low_half(value);
    let high = high_half(value);
    assert(value & 0xffff_ffff <= 0xffff_ffff && value >> 32 <= 0xffff_ffff) by (bit_vector);
    assert((low as u64) | ((high as u64) << 32) == value) by (bit_vector)
        requires
            low == value & 0xffff_ffff,
            high == value >> 32,
    ;
}

/// The processor finds the top of the stack of slot `slot` of the
/// interrupt stack table, counted from 1, in words `7 + 2 * slot` and
/// `8 + 2 * slot` of the segment: at byte 36 for slot 1.
pub proof fn lemma_interrupt_stack_words(tss: TaskSegmentSelector, slot: int)
    requires
        1 <= slot <= 7,
    ensures
        joined(tss_word(tss, 7 + 2 * slot), tss_word(tss, 8 + 2 * slot)) == tss.ist@[slot - 1],
{
    lemma_halves_join(tss.ist@[slot - 1]);
}

/// Must be set for code segments: bit 43.
pub const EXECUTABLE: u64 = 0x0000_0800_0000_0000;

/// Must be set for code and data segments, clear for system segments such
/// as the task state segment: bit 44.
pub const USER_SEGMENT: u64 = 0x0000_1000_0000_0000;

/// Must be set for any segment in use: bit 47.
pub const PRESENT: u64 = 0x0000_8000_0000_0000;

/// Must be set for 64-bit code segments: bit 53.
pub const LONG_MODE: u64 = 0x0020_0000_0000_0000;

/// Type of a system descriptor for an available 64-bit task state
/// segment, in bits 40 to 43.
pub const TSS_AVAILABLE: u64 = 0x0000_0900_0000_0000;

/// Slot of the kernel code segment in the table.
pub const KERNEL_CODE_INDEX: u16 = 1;

/// First of the two slots of the task state segment in the table.
pub const TSS_INDEX: u16 = 2;

/// The descriptor of the kernel code segment: present, executable, 64-bit,
/// not a system segment.
pub open spec fn kernel_code_descriptor() -> u64 {
    PRESENT | EXECUTABLE | LONG_MODE | USER_SEGMENT
}

/// The low word of the descriptor of a task state segment at `addr`: the
/// limit in bits 0 to 15, bits 0 to 23 of the address in bits 16 to 39,
/// the type in bits 40 to 43, the present bit, and bits 24 to 31 of the
/// address in bits 56 to 63.
pub open spec fn tss_descriptor_low(addr: u64) -> u64 {
    ((TSS_SIZE - 1) as u64) | ((addr & 0xff_ffff) << 16) | TSS_AVAILABLE | PRESENT | (((addr
        >> 24) & 0xff) << 56)
}

/// The high word of that descriptor: bits 32 to 63 of the address.
pub open spec fn tss_descriptor_high(addr: u64) -> u64 {
    addr >> 32
}

/// The segment base that the processor reads out of the two words of a
/// system descriptor.
pub open spec fn descriptor_base(low: u64, high: u64) -> u64 {
    ((low >> 16) & 0xff_ffff) | (((low >> 56) & 0xff) << 24) | (high << 32)
}

/// The segment limit that the processor reads out of the low word of a
/// descriptor: bits 0 to 15, and bits 48 to 51 above them.
pub open spec fn descriptor_limit(low: u64) -> u64 {
    (low & 0xffff) | (((low >> 48) & 0xf) << 16)
}

/// The descriptor of the kernel code segment.
pub fn kernel_code_segment() -> (res: u64)
    ensures
        res == kernel_code_descriptor(),
        res == 0x0020_9800_0000_0000,
{
    let res = PRESENT | EXECUTABLE | LONG_MODE | USER_SEGMENT;
    assert(0x0000_8000_0000_0000u64 | 0x0000_0800_0000_0000u64 | 0x0020_0000_0000_0000u64
        | 0x0000_1000_0000_0000u64 == 0x0020_9800_0000_0000u64) by (bit_vector);
    res
}

/// The null descriptor, which slot 0 has to hold.
pub fn null_segment() -> (res: u64)
    ensures
        res == 0,
{
    0
}

/// The two words of the descriptor of a task state segment that lies at
/// `tss_addr`.
pub fn tss_segment(tss_addr: u64) -> (res: (u64, u64))
    ensures
        res.0 == tss_descriptor_low(tss_addr),
        res.1 == tss_descriptor_high(tss_addr),
{
    let ptr_low = tss_addr & 0xff_ffff;
    let ptr_mid = (tss_addr >> 24) & 0xff;
    let ptr_high = tss_addr >> 32;
    let mut segment_low = TSS_SIZE - 1;
    segment_low |= ptr_low << 16;
    segment_low |= TSS_AVAILABLE;
    segment_low |= PRESENT;
    segment_low |= ptr_mid << 56;
    (segment_low, ptr_high)
}

/// The processor reads out of the descriptor of a task state segment the
/// address it was made for and a limit of one less than the segment's
/// size; it finds the descriptor present, a system descriptor of ring 0,
/// of the type of an available 64-bit task state segment.
pub proof fn lemma_tss_descriptor_layout(addr: u64)
    by (bit_vector)
    ensures
        descriptor_base(tss_descriptor_low(addr), tss_descriptor_high(addr)) == addr,
        descriptor_limit(tss_descriptor_low(addr)) == 103,
        (tss_descriptor_low(addr) >> 40) & 0xf == 9,
        tss_descriptor_low(addr) & PRESENT != 0,
        tss_descriptor_low(addr) & USER_SEGMENT == 0,
        (tss_descriptor_low(addr) >> 45) & 0x3 == 0,
        (tss_descriptor_low(addr) >> 52) & 0xf == 0,
{
}

/// The selector of the descriptor in slot `index`, for ring 0: the
/// descriptor's offset in bytes.
pub fn segment_selector(index: u16) -> (res: u16)
    requires
        index < 8192,
    ensures
        res == index * 8,
{
    index * 8
}

/// The slots of the table that the kernel runs on: the null descriptor,
/// the kernel code segment, and the two words of the descriptor of the
/// task state segment at `tss_addr`, in this order.
pub open spec fn kernel_table(tss_addr: u64) -> Seq<u64> {
    seq![
        0u64,
        kernel_code_descriptor(),
        tss_descriptor_low(tss_addr),
        tss_descriptor_high(tss_addr),
    ]
}

/// The kernel code segment and the task state segment lie in the slots
/// that their selectors name: a selector is its slot times 8.
pub proof fn lemma_slots_match_selectors(tss_addr: u64)
    ensures
        kernel_table(tss_addr).len() * 8 == GDT_SIZE,
        kernel_table(tss_addr)[0] == 0,
        kernel_table(tss_addr)[(KERNEL_CODE_INDEX * 8) / 8] == kernel_code_descriptor(),
        kernel_table(tss_addr)[(TSS_INDEX * 8) / 8] == tss_descriptor_low(tss_addr),
        kernel_table(tss_addr)[(TSS_INDEX * 8) / 8 + 1] == tss_descriptor_high(tss_addr),
{
}

/// Size in bytes of the global descriptor table as the processor reads
/// it: four slots of eight bytes.
pub const GDT_SIZE: u64 = 32;

/// The global descriptor table: four 64-bit slots.
pub struct GlobalDescriptorTable {
    pub slots: [u64; 4],
}

impl View for GlobalDescriptorTable {
    type V = Seq<u64>;

    open spec fn view(&self) -> Seq<u64> {
        self.slots@
    }
}

impl GlobalDescriptorTable {
    /// A table of four null descriptors.
    pub fn new() -> (res: Self)
        ensures
            res@ == seq![0u64, 0u64, 0u64, 0u64],
    {
        let res = Self { slots: [0;4] };
        assert(res@ =~= seq![0u64, 0u64, 0u64, 0u64]);
        res
    }

    /// The table that the kernel runs on: the null descriptor, the kernel
    /// code segment, and the two words of the descriptor of the task state
    /// segment at `tss_addr`, in this order.
    pub fn build(tss_addr: u64) -> (res: Self)
        ensures
            res@ == kernel_table(tss_addr),
    {
        let mut gdt = Self::new();
        let tss = tss_segment(tss_addr);
        gdt.set_entry(0, null_segment());
        gdt.set_entry(1, kernel_code_segment());
        gdt.set_entry(2, tss.0);
        gdt.set_entry(3, tss.1);
        assert(gdt@ =~= kernel_table(tss_addr));
        gdt
    }

    /// What the processor has to be handed to load this table from the
    /// address `base`.
    pub fn load(&self, base: u64) -> (res: DescriptorTablePtr)
        ensures
            res == (DescriptorTablePtr { limit: (GDT_SIZE - 1) as u16, base }),
    {
        DescriptorTablePtr::ptr_to(GDT_SIZE, base)
    }

    /// The descriptor in slot `i`.
    pub fn entry(&self, i: usize) -> (res: u64)
        requires
            i < 4,
        ensures
            res == self@[i as int],
    {
        self.slots[i]
    }

    /// Replaces the descriptor in slot `i`.
    pub fn set_entry(&mut self, i: usize, descriptor: u64)
        requires
            i < 4,
        ensures
            final(self)@ == old(self)@.update(i as int, descriptor),
    {
        self.slots[i] = descriptor;
        assert(self@ =~= old(self)@.update(i as int, descriptor));
    }
}

} // verus!
