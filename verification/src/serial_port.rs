//! The serial ports: how one is set up, and when a byte may be read from
//! or written to it.

use vstd::prelude::*;
use crate::io::PortWrite;

verus! {

/// Highest base port whose registers all have a port number.
pub const MAX_BASE_PORT: u16 = 0xfffa;

/// Bit of the line status that says a byte has come in.
pub const DATA_READY: u8 = 0x01;

/// Bit of the line status that says the next byte can go out.
pub const TRANSMIT_EMPTY: u8 = 0x20;

/// The port of the line status register of the serial port at `port`.
pub open spec fn line_status_port(port: u16) -> u16 {
    (port + 5) as u16
}

/// The writes that set up the serial port at `port`, in order: interrupts
/// off, divisor latch on, divisor 3 (38400 baud) low byte and high byte,
/// 8 bits without parity and one stop bit, FIFO on and cleared with a
/// threshold of 14 bytes, interrupts on with RTS and DSR set.
pub open spec fn setup_writes(port: u16) -> Seq<PortWrite> {
    seq![
        PortWrite { port: (port + 1) as u16, value: 0x00 },
        PortWrite { port: (port + 3) as u16, value: 0x80 },
        PortWrite { port: port, value: 0x03 },
        PortWrite { port: (port + 1) as u16, value: 0x00 },
        PortWrite { port: (port + 3) as u16, value: 0x03 },
        PortWrite { port: (port + 2) as u16, value: 0xc7 },
        PortWrite { port: (port + 4) as u16, value: 0x0b },
    ]
}

/// The writes that set up the serial port at `port`, to be carried out
/// in order.
pub fn initialize(port: u16) -> (res: [PortWrite; 7])
    requires
        port <= MAX_BASE_PORT,
    ensures
        res@ == setup_writes(port),
{
    let res = [
        PortWrite { port: port + 1, value: 0x00 },
        PortWrite { port: port + 3, value: 0x80 },
        PortWrite { port: port, value: 0x03 },
        PortWrite { port: port + 1, value: 0x00 },
        PortWrite { port: port + 3, value: 0x03 },
        PortWrite { port: port + 2, value: 0xc7 },
        PortWrite { port: port + 4, value: 0x0b },
    ];
    assert(res@ =~= setup_writes(port));
    res
}

/// The port of the line status register of the serial port at `port`.
pub fn status_port(port: u16) -> (res: u16)
    requires
        port <= MAX_BASE_PORT,
    ensures
        res == line_status_port(port),
{
    port + 5
}

/// Where to read the next byte from, given the line status just read:
/// from `port` once a byte has come in, and nowhere before that.
pub fn read(port: u16, line_status: u8) -> (res: Option<u16>)
    ensures
        res == (if line_status & DATA_READY == 0 {
            None
        } else {
            Some(port)
        }),
{
    if line_status & DATA_READY == 0 {
        None
    } else {
        Some(port)
    }
}

/// The write that sends `v`, given the line status just read: to `port`
/// once the last byte has gone out, and none before that.
pub fn send(port: u16, v: u8, line_status: u8) -> (res: Option<PortWrite>)
    ensures
        res == (if line_status & TRANSMIT_EMPTY == 0 {
            None
        } else {
            Some(PortWrite { port, value: v })
        }),
{
    if line_status & TRANSMIT_EMPTY == 0 {
        None
    } else {
        Some(PortWrite { port, value: v })
    }
}

} // verus!
