//! The interrupt descriptor table.

use vstd::prelude::*;
use super::DescriptorTablePtr;

verus! {

/// Number of vectors, and so of entries of the table.
pub const VECTORS: usize = 256;

/// Size in bytes of the table as the processor reads it: 256 entries of 16
/// bytes.
pub const IDT_SIZE: u64 = 4096;

/// Options of an entry that is not in use: an interrupt gate, not present.
pub const GATE_OPTIONS: u16 = 0xe00;

/// The present bit of the options: bit 15.
pub const GATE_PRESENT: u16 = 0x8000;

/// Vector of the breakpoint exception.
pub const BREAKPOINT_VECTOR: usize = 3;

/// Vector of the double fault.
pub const DOUBLE_FAULT_VECTOR: usize = 8;

/// Vector of the general protection fault.
pub const GENERAL_PROTECTION_FAULT_VECTOR: usize = 13;

/// Vector of the page fault.
pub const PAGE_FAULT_VECTOR: usize = 14;

/// Vector of the timer interrupt: line 0 of the first controller.
pub const TIMER_VECTOR: usize = 32;

/// Vector of the keyboard interrupt: line 1 of the first controller.
pub const KEYBOARD_VECTOR: usize = 33;

/// Slot of the interrupt stack table on whose stack the double fault
/// handler runs.
pub const DOUBLE_FAULT_IST_INDEX: u16 = 1;

/// One entry of the table: the handler's address in three pieces, the
/// code segment it runs in, and the options.
#[derive(Clone, Copy, Debug, PartialEq, Eq, Structural)]
pub struct IdtEntry {
    pub ptr_low: u16,
    pub selector: u16,
    pub options: u16,
    pub ptr_mid: u16,
    pub ptr_high: u32,
    pub reserved: u32,
}

/// The entry of a vector that nothing handles.
pub open spec fn unimplemented_entry() -> IdtEntry {
    IdtEntry { ptr_low: 0, selector: 0, options: GATE_OPTIONS, ptr_mid: 0, ptr_high: 0, reserved: 0 }
}

/// `entry` after the handler at `handler` has been put into it, to run
/// in the code segment `selector`: the address split into bits 0 to 15, 16
/// to 31 and 32 to 63, and the present bit set.
pub open spec fn with_handler(entry: IdtEntry, handler: u64, selector: u16) -> IdtEntry {
    IdtEntry {
        ptr_low: (handler & 0xffff) as u16,
        selector,
        options: entry.options | GATE_PRESENT,
        ptr_mid: ((handler >> 16) & 0xffff) as u16,
        ptr_high: (handler >> 32) as u32,
        reserved: entry.reserved,
    }
}

/// `entry` with the bits of `stack_index` set in its options.
pub open spec fn with_stack(entry: IdtEntry, stack_index: u16) -> IdtEntry {
    IdtEntry { options: entry.options | stack_index, ..entry }
}

/// The handler address that the processor reads out of an entry.
pub open spec fn handler_of(entry: IdtEntry) -> u64 {
    (entry.ptr_low as u64) | ((entry.ptr_mid as u64) << 16) | ((entry.ptr_high as u64) << 32)
}

/// The first eight bytes of an entry as it lies in memory, read as one
/// little-endian word: the low part of the address in bits 0 to 15, the
/// selector in bits 16 to 31, the options in bits 32 to 47 and the middle
/// part of the address in bits 48 to 63.
pub open spec fn entry_low_word(entry: IdtEntry) -> u64 {
    (entry.ptr_low as u64) | ((entry.selector as u64) << 16) | ((entry.options as u64) << 32) | ((
    entry.ptr_mid as u64) << 48)
}

/// The last eight bytes of an entry, likewise: the high part of the
/// address in bits 0 to 31, the reserved field above it.
pub open spec fn entry_high_word(entry: IdtEntry) -> u64 {
    (entry.ptr_high as u64) | ((entry.reserved as u64) << 32)
}

impl IdtEntry {
    /// The entry of a vector that nothing handles.
    pub fn unimplemented() -> (res: Self)
        ensures
            res == unimplemented_entry(),
    {
        Self { ptr_low: 0, selector: 0, options: GATE_OPTIONS, ptr_mid: 0, ptr_high: 0, reserved: 0 }
    }

    /// Binds the entry to the handler at `fn_ptr`, to run in the code
    /// segment `selector`, and marks it present.
    pub fn set_handler(&mut self, fn_ptr: u64, selector: u16) -> (ret: &mut Self)
        ensures
            *ret == with_handler(*old(self), fn_ptr, selector),
            *final(self) == *final(ret),
    {
        assert(fn_ptr & 0xffff <= 0xffff && (fn_ptr >> 16) & 0xffff <= 0xffff && fn_ptr >> 32
            <= 0xffff_ffff) by (bit_vector);
        self.selector = selector;
        self.ptr_low = (fn_ptr & 0xffff) as u16;
        self.ptr_mid = ((fn_ptr >> 16) & 0xffff) as u16;
        self.ptr_high = (fn_ptr >> 32) as u32;
        self.options = self.options | GATE_PRESENT;
        self
    }

    /// The sixteen bytes of the entry as the processor reads them, as two
    /// little-endian words.
    pub fn encode(&self) -> (res: (u64, u64))
        ensures
            res.0 == entry_low_word(*self),
            res.1 == entry_high_word(*self),
    {
        let low = (self.ptr_low as u64) | ((self.selector as u64) << 16) | ((self.options as u64)
            << 32) | ((self.ptr_mid as u64) << 48);
        let high = (self.ptr_high as u64) | ((self.reserved as u64) << 32);
        (low, high)
    }

    /// Makes the handler run on the stack in slot `stack_index` of the
    /// interrupt stack table.
    pub fn with_ist(&mut self, stack_index: u16)
        ensures
            *final(self) == with_stack(*old(self), stack_index),
    {
        self.options = self.options | stack_index;
    }
}

/// The processor reads out of an entry the handler address that was put
/// into it, finds the entry present, and finds in the low three bits of
/// the options the stack index that was set, if it was at most 7 and
/// those bits were clear before.
pub proof fn lemma_entry_layout(
    entry: IdtEntry,
    handler: u64,
    selector: u16,
    stack_index: u16,
)
    ensures
        handler_of(with_handler(entry, handler, selector)) == handler,
        with_handler(entry, handler, selector).options & GATE_PRESENT != 0,
        unimplemented_entry().options & GATE_PRESENT == 0,
        stack_index <= 7 && entry.options & 7 == 0 ==> with_stack(entry, stack_index).options & 7
            == stack_index,
        stack_index <= 7 ==> with_stack(entry, stack_index).options & GATE_PRESENT
            == entry.options & GATE_PRESENT,
{
    let bound = with_handler(entry, handler, selector);
    let low = bound.ptr_low;
    let mid = bound.ptr_mid;
    let high = bound.ptr_high;
    let options = entry.options;
    assert(handler & 0xffff <= 0xffff && (handler >> 16) & 0xffff <= 0xffff && handler >> 32
        <= 0xffff_ffff) by (bit_vector);
    assert((low as u64) | ((mid as u64) << 16) | ((high as u64) << 32) == handler) by (bit_vector)
        requires
            low == handler & 0xffff,
            mid == (handler >> 16) & 0xffff,
            high == handler >> 32,
    ;
    assert((options | 0x8000u16) & 0x8000u16 != 0 && 0xe00u16 & 0x8000u16 == 0 && (stack_index
        <= 7 && options & 7 == 0 ==> (options | stack_index) & 7 == stack_index) && (stack_index
        <= 7 ==> (options | stack_index) & 0x8000u16 == options & 0x8000u16))
        by (bit_vector);
}

/// Each field of an entry is found again at its place in the entry's two
/// words.
pub proof fn lemma_entry_words(entry: IdtEntry)
    ensures
        entry_low_word(entry) & 0xffff == entry.ptr_low,
        (entry_low_word(entry) >> 16) & 0xffff == entry.selector,
        (entry_low_word(entry) >> 32) & 0xffff == entry.options,
        entry_low_word(entry) >> 48 == entry.ptr_mid,
        entry_high_word(entry) & 0xffff_ffff == entry.ptr_high,
        entry_high_word(entry) >> 32 == entry.reserved,
{
    let a = entry.ptr_low;
    let b = entry.selector;
    let c = entry.options;
    let d = entry.ptr_mid;
    let e = entry.ptr_high;
    let f = entry.reserved;
    assert({
        let low = (a as u64) | ((b as u64) << 16) | ((c as u64) << 32) | ((d as u64) << 48);
        let high = (e as u64) | ((f as u64) << 32);
        &&& low & 0xffff == a
        &&& (low >> 16) & 0xffff == b
        &&& (low >> 32) & 0xffff == c
        &&& low >> 48 == d
        &&& high & 0xffff_ffff == e
        &&& high >> 32 == f
    }) by (bit_vector);
}

/// The handlers that the kernel installs, by address.
#[derive(Clone, Copy, Debug, PartialEq, Eq, Structural)]
pub struct Handlers {
    pub breakpoint: u64,
    pub double_fault: u64,
    pub general_protection_fault: u64,
    pub page_fault: u64,
    pub timer: u64,
    pub keyboard: u64,
}

/// The entry that the kernel's table holds for `vector`: bound to its
/// handler where there is one, the double fault's on its own stack, and
/// not in use everywhere else.
pub open spec fn built_entry(handlers: Handlers, selector: u16, vector: int) -> IdtEntry {
    if vector == BREAKPOINT_VECTOR {
        with_handler(unimplemented_entry(), handlers.breakpoint, selector)
    } else if vector == DOUBLE_FAULT_VECTOR {
        with_stack(
            with_handler(unimplemented_entry(), handlers.double_fault, selector),
            DOUBLE_FAULT_IST_INDEX,
        )
    } else if vector == GENERAL_PROTECTION_FAULT_VECTOR {
        with_handler(unimplemented_entry(), handlers.general_protection_fault, selector)
    } else if vector == PAGE_FAULT_VECTOR {
        with_handler(unimplemented_entry(), handlers.page_fault, selector)
    } else if vector == TIMER_VECTOR {
        with_handler(unimplemented_entry(), handlers.timer, selector)
    } else if vector == KEYBOARD_VECTOR {
        with_handler(unimplemented_entry(), handlers.keyboard, selector)
    } else {
        unimplemented_entry()
    }
}

/// In the table that the kernel runs on, the double fault handler is the
/// only one that runs on a stack of its own: its entry names slot 1 of
/// the interrupt stack table, and every other entry names none.
pub proof fn lemma_only_double_fault_switches_stack(
    handlers: Handlers,
    selector: u16,
    vector: int,
)
    ensures
        built_entry(handlers, selector, vector).options & 7 == (if vector == DOUBLE_FAULT_VECTOR {
            DOUBLE_FAULT_IST_INDEX
        } else {
            0u16
        }),
{
    assert(0xe00u16 & 7 == 0 && (0xe00u16 | 0x8000u16) & 7 == 0 && ((0xe00u16 | 0x8000u16) | 1u16)
        & 7 == 1) by (bit_vector);
}

/// The interrupt descriptor table: one entry for each of the 256 vectors.
pub struct InterruptDescriptorTable {
    pub entries: [IdtEntry; 256],
}

impl View for InterruptDescriptorTable {
    type V = Seq<IdtEntry>;

    open spec fn view(&self) -> Seq<IdtEntry> {
        self.entries@
    }
}

impl InterruptDescriptorTable {
    /// A table in which no vector is handled.
    pub fn new() -> (res: Self)
        ensures
            res@ == Seq::new(256, |i: int| unimplemented_entry()),
    {
        let res = Self { entries: [IdtEntry::unimplemented();256] };
        assert(res@ =~= Seq::new(256, |i: int| unimplemented_entry()));
        res
    }

    /// The table that the kernel runs on: the six handlers bound to their
    /// vectors, to run in the code segment `selector`.
    pub fn build(handlers: &Handlers, selector: u16) -> (res: Self)
        ensures
            res@ == Seq::new(256, |i: int| built_entry(*handlers, selector, i)),
    {
        let mut idt = Self::new();
        idt.bind(BREAKPOINT_VECTOR, handlers.breakpoint, selector);
        idt.bind(DOUBLE_FAULT_VECTOR, handlers.double_fault, selector);
        let mut double_fault = idt.entry(DOUBLE_FAULT_VECTOR);
        double_fault.with_ist(DOUBLE_FAULT_IST_INDEX);
        idt.set_entry(DOUBLE_FAULT_VECTOR, double_fault);
        idt.bind(GENERAL_PROTECTION_FAULT_VECTOR, handlers.general_protection_fault, selector);
        idt.bind(PAGE_FAULT_VECTOR, handlers.page_fault, selector);
        idt.bind(TIMER_VECTOR, handlers.timer, selector);
        idt.bind(KEYBOARD_VECTOR, handlers.keyboard, selector);
        assert(idt@ =~= Seq::new(256, |i: int| built_entry(*handlers, selector, i)));
        idt
    }

    /// The 4096 bytes of the table as the processor reads them, as 512
    /// little-endian words: two for each entry, in the order of the
    /// vectors.
    pub fn encode(&self) -> (res: [u64; 512])
        ensures
            forall|vector: int|
                0 <= vector < 256 ==> #[trigger] res@[2 * vector] == entry_low_word(self@[vector])
                    && res@[2 * vector + 1] == entry_high_word(self@[vector]),
    {
        let mut words = [0u64;512];
        let mut vector: usize = 0;
        while vector < VECTORS
            invariant
                vector <= VECTORS,
                forall|v: int|
                    0 <= v < vector ==> #[trigger] words@[2 * v] == entry_low_word(self@[v])
                        && words@[2 * v + 1] == entry_high_word(self@[v]),
            decreases VECTORS - vector,
        {
            let pair = self.entries[vector].encode();
            words[2 * vector] = pair.0;
            words[2 * vector + 1] = pair.1;
            vector += 1;
        }
        words
    }

    /// What the processor has to be handed to load this table from the
    /// address `base`.
    pub fn load(&self, base: u64) -> (res: DescriptorTablePtr)
        ensures
            res == (DescriptorTablePtr { limit: (IDT_SIZE - 1) as u16, base }),
    {
        DescriptorTablePtr::ptr_to(IDT_SIZE, base)
    }

    /// The entry of `vector`.
    pub fn entry(&self, vector: usize) -> (res: IdtEntry)
        requires
            vector < VECTORS,
        ensures
            res == self@[vector as int],
    {
        self.entries[vector]
    }

    /// Replaces the entry of `vector`.
    pub fn set_entry(&mut self, vector: usize, entry: IdtEntry)
        requires
            vector < VECTORS,
        ensures
            final(self)@ == old(self)@.update(vector as int, entry),
    {
        self.entries[vector] = entry;
        assert(self@ =~= old(self)@.update(vector as int, entry));
    }

    /// Binds `vector` to the handler at `fn_ptr`, to run in the code
    /// segment `selector`.
    pub fn bind(&mut self, vector: usize, fn_ptr: u64, selector: u16)
        requires
            vector < VECTORS,
        ensures
            final(self)@ == old(self)@.update(
                vector as int,
                with_handler(old(self)@[vector as int], fn_ptr, selector),
            ),
    {
        let mut entry = self.entries[vector];
        entry.set_handler(fn_ptr, selector);
        self.set_entry(vector, entry);
    }
}

} // verus!
