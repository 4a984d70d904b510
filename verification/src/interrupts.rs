//! Descriptor tables, interrupt wiring and the order in which they are
//! brought up.

use vstd::prelude::*;
use gdt::{KERNEL_CODE_INDEX, TSS_INDEX};
use idt::{
    Handlers, built_entry, BREAKPOINT_VECTOR, DOUBLE_FAULT_VECTOR, GATE_PRESENT,
    GENERAL_PROTECTION_FAULT_VECTOR, KEYBOARD_VECTOR, PAGE_FAULT_VECTOR, TIMER_VECTOR,
};

pub mod gdt;
pub mod idt;
pub mod pic;

verus! {

/// What the processor is handed to find a descriptor table: the table's
/// size in bytes less one, and its address.
#[derive(Clone, Copy, Debug, PartialEq, Eq, Structural)]
pub struct DescriptorTablePtr {
    pub limit: u16,
    pub base: u64,
}

impl DescriptorTablePtr {
    /// The pointer to a table of `size` bytes at `base`. Only the low 16
    /// bits of `size` count, and they must not all be zero.
    pub fn ptr_to(size: u64, base: u64) -> (res: Self)
        requires
            size % 0x1_0000 != 0,
        ensures
            res.limit == size % 0x1_0000 - 1,
            res.base == base,
    {
        let low = size % 0x1_0000;
        Self { limit: (low - 1) as u16, base }
    }
}

/// What the processor pushes on the stack before it enters a handler.
#[derive(Clone, Copy, Debug, PartialEq, Eq, Structural)]
pub struct InterruptStackFrame {
    pub instruction_ptr: u64,
    pub code_segment: u64,
    pub cpu_flags: u64,
    pub stack_ptr: u64,
    pub stack_segment: u64,
}

impl InterruptStackFrame {
    /// The frame that lies in memory as these five words, lowest address
    /// first.
    pub fn from_words(words: [u64; 5]) -> (res: Self)
        ensures
            res == (InterruptStackFrame {
                instruction_ptr: words@[0],
                code_segment: words@[1],
                cpu_flags: words@[2],
                stack_ptr: words@[3],
                stack_segment: words@[4],
            }),
    {
        Self {
            instruction_ptr: words[0],
            code_segment: words[1],
            cpu_flags: words[2],
            stack_ptr: words[3],
            stack_segment: words[4],
        }
    }
}

/// Port from which the keyboard's scan code is read.
pub const KEYBOARD_DATA_PORT: u16 = 0x60;

/// Interrupt line of the timer.
pub const TIMER_IRQ: u8 = 0;

/// Interrupt line of the keyboard.
pub const KEYBOARD_IRQ: u8 = 1;

/// What the handler of a vector does.
#[derive(Clone, Copy, Debug, PartialEq, Eq, Structural)]
pub enum HandlerAction {
    /// Log the stack frame, and the error code where `error_code` says
    /// so, then halt the processor for good.
    LogAndHalt { error_code: bool },
    /// Tell the controllers that line `irq` has been handled.
    Acknowledge { irq: u8 },
    /// Read a scan code from `port` and take it in, then tell the
    /// controllers that line `irq` has been handled.
    ReadKey { port: u16, irq: u8 },
}

/// What the handler of `vector` does, for the six vectors that have one.
/// The breakpoint and the three faults log and halt; of these the general
/// protection fault and the page fault log their error code. The timer
/// and the keyboard do their work and always acknowledge their line.
pub open spec fn action_of(vector: int) -> Option<HandlerAction> {
    if vector == BREAKPOINT_VECTOR || vector == DOUBLE_FAULT_VECTOR {
        Some(HandlerAction::LogAndHalt { error_code: false })
    } else if vector == GENERAL_PROTECTION_FAULT_VECTOR || vector == PAGE_FAULT_VECTOR {
        Some(HandlerAction::LogAndHalt { error_code: true })
    } else if vector == TIMER_VECTOR {
        Some(HandlerAction::Acknowledge { irq: TIMER_IRQ })
    } else if vector == KEYBOARD_VECTOR {
        Some(HandlerAction::ReadKey { port: KEYBOARD_DATA_PORT, irq: KEYBOARD_IRQ })
    } else {
        None
    }
}

/// What the handler of `vector` does; `None` for a vector without a
/// handler.
pub fn handler_action(vector: usize) -> (res: Option<HandlerAction>)
    ensures
        res == action_of(vector as int),
{
    if vector == BREAKPOINT_VECTOR || vector == DOUBLE_FAULT_VECTOR {
        Some(HandlerAction::LogAndHalt { error_code: false })
    } else if vector == GENERAL_PROTECTION_FAULT_VECTOR || vector == PAGE_FAULT_VECTOR {
        Some(HandlerAction::LogAndHalt { error_code: true })
    } else if vector == TIMER_VECTOR {
        Some(HandlerAction::Acknowledge { irq: TIMER_IRQ })
    } else if vector == KEYBOARD_VECTOR {
        Some(HandlerAction::ReadKey { port: KEYBOARD_DATA_PORT, irq: KEYBOARD_IRQ })
    } else {
        None
    }
}

/// The table that the kernel runs on has an entry present for exactly the
/// vectors whose handler does something, and a handler that acknowledges
/// a line does so for the line that its vector belongs to, counted from
/// the first controller's offset.
pub proof fn lemma_handlers_match_table(handlers: Handlers, selector: u16, vector: int)
    requires
        0 <= vector < 256,
    ensures
        built_entry(handlers, selector, vector).options & GATE_PRESENT != 0 <==> action_of(vector)
            is Some,
        action_of(vector) == Some(HandlerAction::Acknowledge { irq: TIMER_IRQ }) ==> vector
            == pic::PIC1_OFFSET + TIMER_IRQ,
        action_of(vector) == Some(
            HandlerAction::ReadKey { port: KEYBOARD_DATA_PORT, irq: KEYBOARD_IRQ },
        ) ==> vector == pic::PIC1_OFFSET + KEYBOARD_IRQ,
{
    assert(0xe00u16 & 0x8000u16 == 0 && (0xe00u16 | 0x8000u16) & 0x8000u16 != 0 && ((0xe00u16
        | 0x8000u16) | 1u16) & 0x8000u16 != 0) by (bit_vector);
}

/// One step of bringing up the interrupt machinery.
#[derive(Clone, Copy, Debug, PartialEq, Eq, Structural)]
pub enum InitStep {
    /// Load the global descriptor table.
    LoadGdt,
    /// Switch the code segment to this selector.
    SetCodeSegment(u16),
    /// Load the task register with this selector.
    LoadTaskRegister(u16),
    /// Load the interrupt descriptor table.
    LoadIdt,
    /// Remap and unmask the interrupt controllers.
    RemapPic,
    /// Let the processor take interrupts.
    EnableInterrupts,
}

/// The steps in the order in which they have to be taken. A selector is
/// its descriptor's slot times 8.
pub open spec fn init_steps() -> Seq<InitStep> {
    seq![
        InitStep::LoadGdt,
        InitStep::SetCodeSegment((KERNEL_CODE_INDEX * 8) as u16),
        InitStep::LoadTaskRegister((TSS_INDEX * 8) as u16),
        InitStep::LoadIdt,
        InitStep::RemapPic,
        InitStep::EnableInterrupts,
    ]
}

/// What has to be done to bring up the interrupt machinery, in order:
/// the segments first, then the interrupt table, then the controllers,
/// and interrupts enabled last.
pub fn initialize() -> (res: [InitStep; 6])
    ensures
        res@ == init_steps(),
{
    let res = [
        InitStep::LoadGdt,
        InitStep::SetCodeSegment(gdt::segment_selector(KERNEL_CODE_INDEX)),
        InitStep::LoadTaskRegister(gdt::segment_selector(TSS_INDEX)),
        InitStep::LoadIdt,
        InitStep::RemapPic,
        InitStep::EnableInterrupts,
    ];
    assert(res@ =~= init_steps());
    res
}

} // verus!
