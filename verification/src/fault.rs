//! The conditions that end a run.

use vstd::prelude::*;

verus! {

/// Why the core stopped. None of these is recoverable: the hardware that
/// the program asked for is not modelled.
#[derive(Debug, PartialEq, Eq, Clone, Copy, Structural)]
pub enum Fault {
    /// The byte fetched at `pc` selects no modelled instruction.
    UnimplementedOpcode { opcode: u8, pc: u16 },
    /// The byte behind the prefix selects no modelled extended instruction;
    /// `pc` is where that byte lies.
    UnimplementedExtendedOpcode { opcode: u8, pc: u16 },
    /// A read of a hardware register that has no modelled read; `value` is
    /// the byte stored there.
    UnimplementedRead { address: u16, value: u8 },
    /// A write to a hardware register that has no modelled write.
    UnimplementedWrite { address: u16, value: u8 },
    /// A write below 0x0100 while the boot overlay still covers it.
    BootOverlayWrite { address: u16, value: u8 },
}

} // verus!
