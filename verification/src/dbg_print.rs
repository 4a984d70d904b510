//! Debug output: it goes to the first serial port.

use vstd::prelude::*;
use crate::io::PortWrite;
use crate::serial_port;
use crate::serial_port::setup_writes;

verus! {

/// Base port of the first serial port.
pub const COM1: u16 = 0x3f8;

/// The writes that set up the port that debug output goes to.
pub fn initialize() -> (res: [PortWrite; 7])
    ensures
        res@ == setup_writes(COM1),
{
    serial_port::initialize(COM1)
}

} // verus!
