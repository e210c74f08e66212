//! Stack instructions and the rotate of the accumulator.

use vstd::prelude::*;
use crate::cpu::{Cpu, Flags};
use crate::fault::Fault;
use crate::memory::{Memory, MemoryView};
use crate::opcodes::extended::shift::{rotate_left, rotated_left};
use crate::opcodes::{done, ended, failed, Outcome};
use crate::video::Video;

verus! {

/// PUSH BC: one byte, sixteen cycles; pushes BC.
pub open spec fn spec_push_bc(m: MemoryView, c: Cpu) -> Outcome {
    let c1 = c.stepped(1, 16);
    ended(
        m.word_written(c1.sp, c1.spec_bc()),
        c1.pushed(m, c1.spec_bc()),
        m.write_word(c1.sp, c1.spec_bc()),
    )
}

/// 0xC5 PUSH BC.
pub fn push_bc<V: Video>(memory: &mut Memory<V>, cpu: &mut Cpu) -> (result: Result<(), Fault>)
    ensures
        ended(final(memory)@, *final(cpu), result) == spec_push_bc(old(memory)@, *old(cpu)),
        final(memory).banks() == old(memory).banks(),
        final(memory)@.tile_updates == old(memory)@.tile_updates ==> final(memory).display()
            == old(memory).display(),
{
    cpu.increment_program_counter();
    cpu.clock_cycles(16);

    let bc: u16 = cpu.bc();
    cpu.push_stack(memory, bc)
}

/// POP BC: one byte, twelve cycles; pops a word into BC.
pub open spec fn spec_pop_bc(m: MemoryView, c: Cpu) -> Outcome {
    let c1 = c.stepped(1, 12).popped();
    match m.read_word(c1.sp) {
        Err(fault) => failed(m, c1, fault),
        Ok(bc) => done(m, c1.with_bc(bc)),
    }
}

/// 0xC1 POP BC.
pub fn pop_bc<V: Video>(memory: &mut Memory<V>, cpu: &mut Cpu) -> (result: Result<(), Fault>)
    ensures
        ended(final(memory)@, *final(cpu), result) == spec_pop_bc(old(memory)@, *old(cpu)),
        *final(memory) == *old(memory),
{
    cpu.increment_program_counter();
    cpu.clock_cycles(12);

    let bc: u16 = cpu.pop_stack(memory)?;
    cpu.set_bc(bc);
    Ok(())
}

/// RLA: one byte, four cycles; rotates A left through the carry flag. Bit
/// 7 of A becomes the carry, the old carry becomes bit 0, and the other
/// three flags are cleared.
pub open spec fn spec_rla(m: MemoryView, c: Cpu) -> Outcome {
    done(
        m,
        Cpu {
            a: rotated_left(c.a, c.flags.carry),
            flags: Flags { zero: false, subtract: false, half_carry: false, carry: c.a >= 0x80 },
            ..c.stepped(1, 4)
        },
    )
}

/// 0x17 RLA.
pub fn rla<V: Video>(memory: &mut Memory<V>, cpu: &mut Cpu) -> (result: Result<(), Fault>)
    ensures
        ended(final(memory)@, *final(cpu), result) == spec_rla(old(memory)@, *old(cpu)),
        *final(memory) == *old(memory),
{
    cpu.increment_program_counter();
    cpu.clock_cycles(4);

    let val: u8 = cpu.a();
    let new_carry = val >= 0b1000_0000;
    let new_val: u8 = rotate_left(val, cpu.flags.c());
    cpu.flags.clear_zero();
    cpu.flags.clear_half_carry();
    cpu.flags.clear_subtract();
    cpu.flags.update_carry(new_carry);

    cpu.set_a(new_val);
    Ok(())
}

} // verus!
