//! Exclusive or.

use vstd::prelude::*;
use crate::cpu::{Cpu, Flags};
use crate::fault::Fault;
use crate::memory::{Memory, MemoryView};
use crate::opcodes::{done, ended, Outcome};
use crate::video::Video;

verus! {

/// XOR A: one byte, four cycles; A becomes zero, the zero flag is set and
/// the other three are cleared.
pub open spec fn spec_xor_a(m: MemoryView, c: Cpu) -> Outcome {
    done(
        m,
        Cpu {
            a: 0,
            flags: Flags { zero: true, subtract: false, half_carry: false, carry: false },
            ..c.stepped(1, 4)
        },
    )
}

/// 0xAF XOR A.
pub fn xor_a<V: Video>(memory: &mut Memory<V>, cpu: &mut Cpu) -> (result: Result<(), Fault>)
    ensures
        ended(final(memory)@, *final(cpu), result) == spec_xor_a(old(memory)@, *old(cpu)),
        *final(memory) == *old(memory),
{
    cpu.increment_program_counter();
    cpu.clock_cycles(4);

    cpu.set_a(0);
    cpu.flags.set_zero();
    cpu.flags.clear_half_carry();
    cpu.flags.clear_subtract();
    cpu.flags.clear_carry();
    Ok(())
}

} // verus!
