//! Trap-and-memory core of a small single-core x86-64 kernel: typed
//! addresses, the physical frame allocator, page-table entries and the
//! four-level walk, the kernel heap watermark, and the descriptor tables
//! the processor parses.
//!
//! Everything here is plain computation on values. Whatever has to touch
//! the machine (port I/O, control registers, raw memory) is described as
//! data and left to the caller to carry out.

use vstd::prelude::*;

pub mod allocator;
pub mod dbg_print;
pub mod interrupts;
pub mod io;
pub mod keyboard;
pub mod mem;
pub mod serial_port;
pub mod vga;

verus! {

/// One stage of bringing the kernel up.
#[derive(Clone, Copy, Debug, PartialEq, Eq, Structural)]
pub enum BootStep {
    /// Set up the port that debug output goes to.
    DebugOutput,
    /// Start the frame allocator on the boot loader's memory map.
    FrameAllocator,
    /// Load the descriptor tables, remap the interrupt controllers and
    /// enable interrupts: the steps of `interrupts::initialize`.
    Interrupts,
    /// Map the pages of the heap.
    Heap,
}

/// The stages in the order in which they have to be gone through.
pub open spec fn boot_steps() -> Seq<BootStep> {
    seq![BootStep::DebugOutput, BootStep::FrameAllocator, BootStep::Interrupts, BootStep::Heap]
}

/// What has to be done to bring the kernel up, in order: debug output
/// first, so that every later stage can report; then the frame allocator;
/// then the interrupt machinery; and last the heap, whose pages take
/// their frames from the frame allocator.
pub fn initialize() -> (res: [BootStep; 4])
    ensures
        res@ == boot_steps(),
{
    let res = [BootStep::DebugOutput, BootStep::FrameAllocator, BootStep::Interrupts, BootStep::Heap];
    assert(res@ =~= boot_steps());
    res
}

/// Column at which the outcome of a test is reported.
pub const REPORT_WIDTH: usize = 40;

/// The number of blanks between the name of a test and its outcome, for a
/// module name and a test name of these lengths: what the two leave of
/// the report's width. Together they must not be longer than the width.
pub fn report_padding(module_len: usize, name_len: usize) -> (res: usize)
    requires
        module_len + name_len <= REPORT_WIDTH,
    ensures
        res == REPORT_WIDTH - module_len - name_len,
{
    REPORT_WIDTH - module_len - name_len
}

/// Port of the emulator's exit device.
pub const QEMU_EXIT_PORT: u16 = 0xf4;

/// The write that makes the emulator exit and report success.
pub fn qemu_exit_success() -> (res: io::PortWrite)
    ensures
        res == (io::PortWrite { port: QEMU_EXIT_PORT, value: 0x10 }),
{
    io::PortWrite { port: QEMU_EXIT_PORT, value: 0x10 }
}

/// The write that makes the emulator exit and report failure.
pub fn qemu_exit_failure() -> (res: io::PortWrite)
    ensures
        res == (io::PortWrite { port: QEMU_EXIT_PORT, value: 0x11 }),
{
    io::PortWrite { port: QEMU_EXIT_PORT, value: 0x11 }
}

} // verus!
