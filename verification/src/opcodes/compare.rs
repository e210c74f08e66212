//! Compares of A with an operand.

use vstd::prelude::*;
use crate::cpu::Cpu;
use crate::fault::Fault;
use crate::memory::{Memory, MemoryView};
use crate::opcodes::{done, ended, failed, Outcome};
use crate::video::Video;

verus! {

/// CP d8: two bytes, eight cycles; compares A with the byte after the
/// opcode.
pub open spec fn spec_cp_d8(m: MemoryView, c: Cpu) -> Outcome {
    let c1 = c.stepped(1, 8);
    match m.read_byte(c1.pc) {
        Err(fault) => failed(m, c1, fault),
        Ok(val) => done(m, c1.advanced(1).after_compare(val)),
    }
}

/// 0xFE CP d8.
pub fn cp_d8<V: Video>(memory: &mut Memory<V>, cpu: &mut Cpu) -> (result: Result<(), Fault>)
    ensures
        ended(final(memory)@, *final(cpu), result) == spec_cp_d8(old(memory)@, *old(cpu)),
        *final(memory) == *old(memory),
{
    cpu.clock_cycles(8);
    cpu.increment_program_counter();
    let operand: u8 = memory.read_byte(cpu.program_counter())?;
    cpu.increment_program_counter();

    cpu.cmp_a_with(operand);
    Ok(())
}

/// CP (HL): one byte, eight cycles; compares A with the byte that HL
/// points at.
pub open spec fn spec_cp_ptr_hl(m: MemoryView, c: Cpu) -> Outcome {
    let c1 = c.stepped(1, 8);
    match m.read_byte(c1.spec_hl()) {
        Err(fault) => failed(m, c1, fault),
        Ok(val) => done(m, c1.after_compare(val)),
    }
}

/// 0xBE CP (HL).
pub fn cp_ptr_hl<V: Video>(memory: &mut Memory<V>, cpu: &mut Cpu) -> (result: Result<(), Fault>)
    ensures
        ended(final(memory)@, *final(cpu), result) == spec_cp_ptr_hl(old(memory)@, *old(cpu)),
        *final(memory) == *old(memory),
{
    cpu.clock_cycles(8);
    cpu.increment_program_counter();

    let val: u8 = memory.read_byte(cpu.hl())?;

    cpu.cmp_a_with(val);
    Ok(())
}

} // verus!
