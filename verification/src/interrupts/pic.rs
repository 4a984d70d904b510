//! The two programmable interrupt controllers.

use vstd::prelude::*;
use crate::io::PortWrite;

verus! {

/// Command port of the first controller.
pub const PIC1_CMD: u16 = 0x20;

/// Data port of the first controller.
pub const PIC1_DATA: u16 = 0x21;

/// Command port of the second controller.
pub const PIC2_CMD: u16 = 0xa0;

/// Data port of the second controller.
pub const PIC2_DATA: u16 = 0xa1;

/// Vector of line 0 of the first controller, once remapped.
pub const PIC1_OFFSET: u8 = 0x20;

/// Vector of line 0 of the second controller, once remapped.
pub const PIC2_OFFSET: u8 = 0x28;

/// The command that ends an interrupt.
pub const END_OF_INTERRUPT: u8 = 0x20;

/// The writes that bring both controllers up, in order: start the
/// initialization of each, give each its vector offset, tell the first
/// that the second hangs on its line 2 and the second that it is the one
/// on line 2, put both in 8086 mode, and mask every line but the timer's
/// and the keyboard's.
pub open spec fn remap_writes() -> Seq<PortWrite> {
    seq![
        PortWrite { port: PIC1_CMD, value: 0x11 },
        PortWrite { port: PIC2_CMD, value: 0x11 },
        PortWrite { port: PIC1_DATA, value: PIC1_OFFSET },
        PortWrite { port: PIC2_DATA, value: PIC2_OFFSET },
        PortWrite { port: PIC1_DATA, value: 0x04 },
        PortWrite { port: PIC2_DATA, value: 0x02 },
        PortWrite { port: PIC1_DATA, value: 0x01 },
        PortWrite { port: PIC2_DATA, value: 0x01 },
        PortWrite { port: PIC1_DATA, value: 0xfc },
        PortWrite { port: PIC2_DATA, value: 0xff },
    ]
}

/// The writes that remap and unmask the controllers, to be carried out in
/// order.
pub fn initialize() -> (res: [PortWrite; 10])
    ensures
        res@ == remap_writes(),
{
    let res = [
        PortWrite { port: PIC1_CMD, value: 0x11 },
        PortWrite { port: PIC2_CMD, value: 0x11 },
        PortWrite { port: PIC1_DATA, value: PIC1_OFFSET },
        PortWrite { port: PIC2_DATA, value: PIC2_OFFSET },
        PortWrite { port: PIC1_DATA, value: 0x04 },
        PortWrite { port: PIC2_DATA, value: 0x02 },
        PortWrite { port: PIC1_DATA, value: 0x01 },
        PortWrite { port: PIC2_DATA, value: 0x01 },
        PortWrite { port: PIC1_DATA, value: 0xfc },
        PortWrite { port: PIC2_DATA, value: 0xff },
    ];
    assert(res@ =~= remap_writes());
    res
}

/// The writes that tell the controllers that the interrupt of line `irq`
/// has been handled: first to the second controller, if the line is one
/// of its own, then to the first.
pub fn end_of_interrupt(irq: u8) -> (res: (Option<PortWrite>, PortWrite))
    ensures
        res.0 == (if irq >= 8 {
            Some(PortWrite { port: PIC2_CMD, value: END_OF_INTERRUPT })
        } else {
            None::<PortWrite>
        }),
        res.1 == (PortWrite { port: PIC1_CMD, value: END_OF_INTERRUPT }),
{
    let second = if irq >= 8 {
        Some(PortWrite { port: PIC2_CMD, value: END_OF_INTERRUPT })
    } else {
        None
    };
    (second, PortWrite { port: PIC1_CMD, value: END_OF_INTERRUPT })
}

} // verus!
