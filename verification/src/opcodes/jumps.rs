//! Jumps, calls and restarts.

use vstd::prelude::*;
use crate::cpu::{add16, sub16, Cpu};
use crate::fault::Fault;
use crate::memory::{Memory, MemoryView};
use crate::opcodes::{done, ended, failed, Outcome};
use crate::video::Video;

verus! {

/// Where RST 38H continues.
pub const RESTART_ADDRESS: u16 = 0x0038;

/// The address `displacement` away from `pc`, the displacement read as a
/// signed byte: values from 0x80 on stand for -128 to -1. The result wraps
/// within the 16-bit address range.
pub open spec fn relative_target(pc: u16, displacement: u8) -> u16 {
    if displacement < 0x80 {
        add16(pc, displacement as u16)
    } else {
        sub16(pc, (0x100 - displacement) as u16)
    }
}

/// The displacement byte read as a signed number, -128 to 127.
pub open spec fn signed(displacement: u8) -> int {
    if displacement < 0x80 {
        displacement as int
    } else {
        displacement - 0x100
    }
}

/// A relative jump lands where the signed displacement, added to the
/// program counter in 16 bits, points; -128 is no exception.
pub proof fn lemma_relative_target_is_signed_sum(pc: u16, displacement: u8)
    ensures
        relative_target(pc, displacement) == (pc + signed(displacement)) % 0x1_0000,
        relative_target(pc, 0x80) == (pc - 128) % 0x1_0000,
{
}

/// Adds the signed displacement to the program counter. The distance of a
/// negative displacement is taken in 16 bits, so that -128 needs no case of
/// its own.
pub fn jump_relative(cpu: &mut Cpu, displacement: u8)
    ensures
        *final(cpu) == (Cpu { pc: relative_target(old(cpu).pc, displacement), ..*old(cpu) }),
{
    let pc: u16 = cpu.program_counter();
    let target: u16 = if displacement >= 0x80 {
        let distance: u16 = 0x100 - (displacement as u16);
        pc.wrapping_sub(distance)
    } else {
        pc.wrapping_add(displacement as u16)
    };
    cpu.set_program_counter(target);
}

/// RST 38: one byte, sixteen cycles; pushes the address of the next
/// instruction and continues at the restart address.
pub open spec fn spec_rst_38(m: MemoryView, c: Cpu) -> Outcome {
    let c1 = c.stepped(1, 16);
    match m.write_word(c1.sp, c1.pc) {
        Err(fault) => failed(m.word_written(c1.sp, c1.pc), c1, fault),
        Ok(_) => done(
            m.word_written(c1.sp, c1.pc),
            Cpu { pc: RESTART_ADDRESS, ..c1.pushed(m, c1.pc) },
        ),
    }
}

/// 0xFF RST 38H.
pub fn rst_38<V: Video>(memory: &mut Memory<V>, cpu: &mut Cpu) -> (result: Result<(), Fault>)
    ensures
        ended(final(memory)@, *final(cpu), result) == spec_rst_38(old(memory)@, *old(cpu)),
        final(memory).banks() == old(memory).banks(),
        final(memory)@.tile_updates == old(memory)@.tile_updates ==> final(memory).display()
            == old(memory).display(),
{
    cpu.clock_cycles(16);
    cpu.increment_program_counter();
    let pc: u16 = cpu.program_counter();
    cpu.push_stack(memory, pc)?;
    cpu.set_program_counter(RESTART_ADDRESS);
    Ok(())
}

/// CALL Z,a16: three bytes. With the zero flag set it pushes the address of
/// the byte after the opcode, counts 24 cycles and continues at the address
/// read from there; with the flag clear it counts 12 cycles and goes on
/// behind its operand.
pub open spec fn spec_call_z_a16(m: MemoryView, c: Cpu) -> Outcome {
    let c1 = c.advanced(1);
    if c.flags.zero {
        let m1 = m.word_written(c1.sp, c1.pc);
        match m.write_word(c1.sp, c1.pc) {
            Err(fault) => failed(m1, c1, fault),
            Ok(_) => {
                let c2 = c1.pushed(m, c1.pc).clocked(24);
                match m1.read_word(c2.pc) {
                    Err(fault) => failed(m1, c2, fault),
                    Ok(address) => done(m1, Cpu { pc: address, ..c2 }),
                }
            },
        }
    } else {
        done(m, c1.clocked(12).advanced(2))
    }
}

/// 0xCC CALL Z,a16.
pub fn call_z_a16<V: Video>(memory: &mut Memory<V>, cpu: &mut Cpu) -> (result: Result<(), Fault>)
    ensures
        ended(final(memory)@, *final(cpu), result) == spec_call_z_a16(old(memory)@, *old(cpu)),
        final(memory).banks() == old(memory).banks(),
        final(memory)@.tile_updates == old(memory)@.tile_updates ==> final(memory).display()
            == old(memory).display(),
{
    cpu.increment_program_counter();

    if cpu.flags.z() {
        let pc: u16 = cpu.program_counter();
        cpu.push_stack(memory, pc)?;

        cpu.clock_cycles(24);
        let address: u16 = memory.read_word(cpu.program_counter())?;
        cpu.set_program_counter(address);
    } else {
        cpu.clock_cycles(12);
        cpu.increment_program_counter();
        cpu.increment_program_counter();
    }
    Ok(())
}

/// A relative jump that is taken when `taken` holds: two bytes; twelve
/// cycles and the displacement added if taken, eight cycles if not. The
/// cycles are counted once the displacement has been read.
pub open spec fn spec_jr_if(m: MemoryView, c: Cpu, taken: bool) -> Outcome {
    let c1 = c.advanced(1);
    match m.read_byte(c1.pc) {
        Err(fault) => failed(m, c1, fault),
        Ok(displacement) => {
            let c2 = c1.advanced(1);
            if taken {
                done(m, Cpu { pc: relative_target(c2.pc, displacement), ..c2 }.clocked(12))
            } else {
                done(m, c2.clocked(8))
            }
        },
    }
}

/// JR NZ,r8: jumps if the zero flag is clear.
pub open spec fn spec_jr_nz_r8(m: MemoryView, c: Cpu) -> Outcome {
    spec_jr_if(m, c, !c.flags.zero)
}

/// 0x20 JR NZ,r8.
pub fn jr_nz_r8<V: Video>(memory: &mut Memory<V>, cpu: &mut Cpu) -> (result: Result<(), Fault>)
    ensures
        ended(final(memory)@, *final(cpu), result) == spec_jr_nz_r8(old(memory)@, *old(cpu)),
        *final(memory) == *old(memory),
{
    cpu.increment_program_counter();
    let val: u8 = memory.read_byte(cpu.program_counter())?;

    cpu.increment_program_counter();
    if !cpu.flags.z() {
        jump_relative(cpu, val);
        cpu.clock_cycles(12);
    } else {
        cpu.clock_cycles(8);
    }
    Ok(())
}

/// JR Z,r8: jumps if the zero flag is set.
pub open spec fn spec_jr_z_r8(m: MemoryView, c: Cpu) -> Outcome {
    spec_jr_if(m, c, c.flags.zero)
}

/// 0x28 JR Z,r8.
pub fn jr_z_r8<V: Video>(memory: &mut Memory<V>, cpu: &mut Cpu) -> (result: Result<(), Fault>)
    ensures
        ended(final(memory)@, *final(cpu), result) == spec_jr_z_r8(old(memory)@, *old(cpu)),
        *final(memory) == *old(memory),
{
    cpu.increment_program_counter();
    let val: u8 = memory.read_byte(cpu.program_counter())?;

    cpu.increment_program_counter();
    if cpu.flags.z() {
        jump_relative(cpu, val);
        cpu.clock_cycles(12);
    } else {
        cpu.clock_cycles(8);
    }
    Ok(())
}

/// JR r8: always jumps.
pub open spec fn spec_jr_r8(m: MemoryView, c: Cpu) -> Outcome {
    spec_jr_if(m, c, true)
}

/// 0x18 JR r8.
pub fn jr_r8<V: Video>(memory: &mut Memory<V>, cpu: &mut Cpu) -> (result: Result<(), Fault>)
    ensures
        ended(final(memory)@, *final(cpu), result) == spec_jr_r8(old(memory)@, *old(cpu)),
        *final(memory) == *old(memory),
{
    cpu.increment_program_counter();
    let val: u8 = memory.read_byte(cpu.program_counter())?;

    cpu.increment_program_counter();
    jump_relative(cpu, val);
    cpu.clock_cycles(12);
    Ok(())
}

/// CALL a16: three bytes, 24 cycles; pushes the address of the second
/// operand byte and continues at the address read from the operand.
pub open spec fn spec_call_a16(m: MemoryView, c: Cpu) -> Outcome {
    let c1 = c.stepped(1, 24);
    match m.read_word(c1.pc) {
        Err(fault) => failed(m, c1, fault),
        Ok(address) => {
            let c2 = c1.advanced(1);
            let m1 = m.word_written(c2.sp, c2.pc);
            match m.write_word(c2.sp, c2.pc) {
                Err(fault) => failed(m1, c2, fault),
                Ok(_) => done(m1, Cpu { pc: address, ..c2.pushed(m, c2.pc) }),
            }
        },
    }
}

/// 0xCD CALL a16.
pub fn call_a16<V: Video>(memory: &mut Memory<V>, cpu: &mut Cpu) -> (result: Result<(), Fault>)
    ensures
        ended(final(memory)@, *final(cpu), result) == spec_call_a16(old(memory)@, *old(cpu)),
        final(memory).banks() == old(memory).banks(),
        final(memory)@.tile_updates == old(memory)@.tile_updates ==> final(memory).display()
            == old(memory).display(),
{
    cpu.increment_program_counter();
    cpu.clock_cycles(24);

    let address: u16 = memory.read_word(cpu.program_counter())?;
    cpu.increment_program_counter();

    let pc: u16 = cpu.program_counter();
    cpu.push_stack(memory, pc)?;
    cpu.set_program_counter(address);
    Ok(())
}

/// JP a16: three bytes, sixteen cycles; continues at the address after the
/// opcode.
pub open spec fn spec_jp_a16(m: MemoryView, c: Cpu) -> Outcome {
    let c1 = c.stepped(1, 16);
    match m.read_word(c1.pc) {
        Err(fault) => failed(m, c1, fault),
        Ok(address) => done(m, Cpu { pc: address, ..c1 }),
    }
}

/// 0xC3 JP a16.
pub fn jp_a16<V: Video>(memory: &mut Memory<V>, cpu: &mut Cpu) -> (result: Result<(), Fault>)
    ensures
        ended(final(memory)@, *final(cpu), result) == spec_jp_a16(old(memory)@, *old(cpu)),
        *final(memory) == *old(memory),
{
    cpu.clock_cycles(16);
    cpu.increment_program_counter();

    let address: u16 = memory.read_word(cpu.program_counter())?;

    cpu.set_program_counter(address);
    Ok(())
}

} // verus!
