//! The instructions behind the prefix byte.

use vstd::prelude::*;
use crate::cpu::Cpu;
use crate::fault::Fault;
use crate::memory::{Memory, MemoryView};
use crate::opcodes::{ended, failed, Outcome};
use crate::video::Video;

pub mod bit;
pub mod shift;

verus! {

/// What the extended instruction that `opcode` selects does. Every one of
/// the 256 bytes has an entry: those without a modelled instruction stop
/// on a fault that names the byte and where it lies, and change nothing.
pub open spec fn spec_dispatch(opcode: u8, m: MemoryView, c: Cpu) -> Outcome {
    match opcode {
        0x11 => shift::spec_rl_c(m, c),
        0x7C => bit::spec_bit_7_h(m, c),
        0x87 => bit::spec_res_0_a(m, c),
        _ => failed(m, c, Fault::UnimplementedExtendedOpcode { opcode, pc: c.pc }),
    }
}

/// Runs the extended instruction that `opcode` selects, the program
/// counter pointing at that byte.
pub fn dispatch<V: Video>(opcode: u8, memory: &mut Memory<V>, cpu: &mut Cpu) -> (result: Result<
    (),
    Fault,
>)
    ensures
        ended(final(memory)@, *final(cpu), result) == spec_dispatch(
            opcode,
            old(memory)@,
            *old(cpu),
        ),
        *final(memory) == *old(memory),
{
    match opcode {
        0x11 => shift::rl_c(memory, cpu),
        0x7C => bit::bit_7_h(memory, cpu),
        0x87 => bit::res_0_a(memory, cpu),
        _ => Err(Fault::UnimplementedExtendedOpcode { opcode, pc: cpu.program_counter() }),
    }
}

/// The prefix: one byte, four cycles; the byte behind it selects the
/// extended instruction that runs next.
pub open spec fn spec_execute(m: MemoryView, c: Cpu) -> Outcome {
    let c1 = c.stepped(1, 4);
    match m.read_byte(c1.pc) {
        Err(fault) => failed(m, c1, fault),
        Ok(opcode) => spec_dispatch(opcode, m, c1),
    }
}

/// 0xCB: runs the extended instruction behind the prefix.
pub fn execute<V: Video>(memory: &mut Memory<V>, cpu: &mut Cpu) -> (result: Result<(), Fault>)
    ensures
        ended(final(memory)@, *final(cpu), result) == spec_execute(old(memory)@, *old(cpu)),
        *final(memory) == *old(memory),
{
    cpu.increment_program_counter();
    cpu.clock_cycles(4);

    let instruction: u8 = memory.read_byte(cpu.program_counter())?;
    dispatch(instruction, memory, cpu)
}

} // verus!
