//! Additions and increments.

use vstd::prelude::*;
use crate::cpu::{add16, add8, Cpu, Flags};
use crate::fault::Fault;
use crate::memory::{Memory, MemoryView};
use crate::opcodes::{done, ended, failed, Outcome};
use crate::video::Video;

verus! {

/// ADD A,E: one byte, four cycles; adds E to A.
pub open spec fn spec_add_a_e(m: MemoryView, c: Cpu) -> Outcome {
    done(m, c.stepped(1, 4).after_add_a(c.e, false))
}

/// 0x83 ADD A,E.
pub fn add_a_e<V: Video>(memory: &mut Memory<V>, cpu: &mut Cpu) -> (result: Result<(), Fault>)
    ensures
        ended(final(memory)@, *final(cpu), result) == spec_add_a_e(old(memory)@, *old(cpu)),
        *final(memory) == *old(memory),
{
    cpu.clock_cycles(4);
    cpu.increment_program_counter();

    let val: u8 = cpu.e();

    cpu.add_a(val, false);
    Ok(())
}

/// ADC A,d8: two bytes, eight cycles; adds the byte after the opcode, and
/// the carry flag, to A.
pub open spec fn spec_adc_a_d8(m: MemoryView, c: Cpu) -> Outcome {
    let c1 = c.stepped(1, 8);
    match m.read_byte(c1.pc) {
        Err(fault) => failed(m, c1, fault),
        Ok(val) => done(m, c1.advanced(1).after_add_a(val, true)),
    }
}

/// 0xCE ADC A,d8.
pub fn adc_a_d8<V: Video>(memory: &mut Memory<V>, cpu: &mut Cpu) -> (result: Result<(), Fault>)
    ensures
        ended(final(memory)@, *final(cpu), result) == spec_adc_a_d8(old(memory)@, *old(cpu)),
        *final(memory) == *old(memory),
{
    cpu.clock_cycles(8);
    cpu.increment_program_counter();

    let val: u8 = memory.read_byte(cpu.program_counter())?;
    cpu.increment_program_counter();

    cpu.add_a(val, true);
    Ok(())
}

/// INC BC: one byte, eight cycles; BC goes up by one, the flags stay.
pub open spec fn spec_inc_bc(m: MemoryView, c: Cpu) -> Outcome {
    done(m, c.stepped(1, 8).with_bc(add16(c.spec_bc(), 1)))
}

/// 0x03 INC BC.
pub fn inc_bc<V: Video>(memory: &mut Memory<V>, cpu: &mut Cpu) -> (result: Result<(), Fault>)
    ensures
        ended(final(memory)@, *final(cpu), result) == spec_inc_bc(old(memory)@, *old(cpu)),
        *final(memory) == *old(memory),
{
    cpu.clock_cycles(8);
    cpu.increment_program_counter();

    cpu.set_bc(cpu.bc().wrapping_add(1));
    Ok(())
}

/// INC C: one byte, four cycles; C goes up by one, wrapping at 0xFF. Both
/// flags are read off the value that C held before: zero is set exactly
/// when it held 0xFF, half-carry exactly when it held 0x0F. The subtract
/// flag is cleared; carry stays.
pub open spec fn spec_inc_c(m: MemoryView, c: Cpu) -> Outcome {
    done(
        m,
        Cpu {
            c: add8(c.c, 1),
            flags: Flags {
                zero: c.c == 0xFF,
                subtract: false,
                half_carry: c.c == 0x0F,
                ..c.flags
            },
            ..c.stepped(1, 4)
        },
    )
}

/// 0x0C INC C.
pub fn inc_c<V: Video>(memory: &mut Memory<V>, cpu: &mut Cpu) -> (result: Result<(), Fault>)
    ensures
        ended(final(memory)@, *final(cpu), result) == spec_inc_c(old(memory)@, *old(cpu)),
        *final(memory) == *old(memory),
{
    cpu.clock_cycles(4);
    cpu.increment_program_counter();

    let val: u8 = cpu.c();
    cpu.flags.clear_subtract();
    if val == u8::MAX {
        cpu.flags.set_zero();
        cpu.flags.clear_half_carry();
        cpu.set_c(0);
    } else {
        cpu.flags.clear_zero();
        cpu.flags.update_half_carry(val == 0b1111);
        cpu.set_c(val + 1);
    }
    Ok(())
}

/// ADC A,B: one byte, four cycles; adds B, and the carry flag, to A.
pub open spec fn spec_adc_a_b(m: MemoryView, c: Cpu) -> Outcome {
    done(m, c.stepped(1, 4).after_add_a(c.b, true))
}

/// 0x88 ADC A,B.
pub fn adc_a_b<V: Video>(memory: &mut Memory<V>, cpu: &mut Cpu) -> (result: Result<(), Fault>)
    ensures
        ended(final(memory)@, *final(cpu), result) == spec_adc_a_b(old(memory)@, *old(cpu)),
        *final(memory) == *old(memory),
{
    cpu.clock_cycles(4);
    cpu.increment_program_counter();

    let val: u8 = cpu.b();
    cpu.add_a(val, true);
    Ok(())
}

/// ADC A,C: one byte, four cycles; adds C, and the carry flag, to A.
pub open spec fn spec_adc_a_c(m: MemoryView, c: Cpu) -> Outcome {
    done(m, c.stepped(1, 4).after_add_a(c.c, true))
}

/// 0x89 ADC A,C.
pub fn adc_a_c<V: Video>(memory: &mut Memory<V>, cpu: &mut Cpu) -> (result: Result<(), Fault>)
    ensures
        ended(final(memory)@, *final(cpu), result) == spec_adc_a_c(old(memory)@, *old(cpu)),
        *final(memory) == *old(memory),
{
    cpu.clock_cycles(4);
    cpu.increment_program_counter();

    let val: u8 = cpu.c();
    cpu.add_a(val, true);
    Ok(())
}

/// ADD A,(HL): one byte, eight cycles; adds the byte that HL points at to
/// A.
pub open spec fn spec_add_a_ptr_hl(m: MemoryView, c: Cpu) -> Outcome {
    let c1 = c.stepped(1, 8);
    match m.read_byte(c1.spec_hl()) {
        Err(fault) => failed(m, c1, fault),
        Ok(val) => done(m, c1.after_add_a(val, false)),
    }
}

/// 0x86 ADD A,(HL).
pub fn add_a_ptr_hl<V: Video>(memory: &mut Memory<V>, cpu: &mut Cpu) -> (result: Result<
    (),
    Fault,
>)
    ensures
        ended(final(memory)@, *final(cpu), result) == spec_add_a_ptr_hl(old(memory)@, *old(cpu)),
        *final(memory) == *old(memory),
{
    cpu.clock_cycles(8);
    cpu.increment_program_counter();

    let addr: u16 = cpu.hl();
    let val: u8 = memory.read_byte(addr)?;
    cpu.add_a(val, false);
    Ok(())
}

/// INC HL: one byte, eight cycles; HL goes up by one, the flags stay.
pub open spec fn spec_inc_hl(m: MemoryView, c: Cpu) -> Outcome {
    done(m, c.stepped(1, 8).with_hl(add16(c.spec_hl(), 1)))
}

/// 0x23 INC HL.
pub fn inc_hl<V: Video>(memory: &mut Memory<V>, cpu: &mut Cpu) -> (result: Result<(), Fault>)
    ensures
        ended(final(memory)@, *final(cpu), result) == spec_inc_hl(old(memory)@, *old(cpu)),
        *final(memory) == *old(memory),
{
    cpu.increment_program_counter();
    cpu.clock_cycles(8);
    cpu.set_hl(cpu.hl().wrapping_add(1));
    Ok(())
}

/// INC DE: one byte, eight cycles; DE goes up by one, the flags stay.
pub open spec fn spec_inc_de(m: MemoryView, c: Cpu) -> Outcome {
    done(m, c.stepped(1, 8).with_de(add16(c.spec_de(), 1)))
}

/// 0x13 INC DE.
pub fn inc_de<V: Video>(memory: &mut Memory<V>, cpu: &mut Cpu) -> (result: Result<(), Fault>)
    ensures
        ended(final(memory)@, *final(cpu), result) == spec_inc_de(old(memory)@, *old(cpu)),
        *final(memory) == *old(memory),
{
    cpu.increment_program_counter();
    cpu.clock_cycles(8);
    cpu.set_de(cpu.de().wrapping_add(1));
    Ok(())
}

/// The flags after an 8-bit increment of a register that held `before`:
/// zero when it held 0xFF, half-carry when it held 0x80, subtract cleared,
/// carry kept.
pub open spec fn flags_after_inc(flags: Flags, before: u8) -> Flags {
    Flags { zero: before == 0xFF, subtract: false, half_carry: before == 0x80, ..flags }
}

/// INC B: one byte, four cycles; B goes up by one, wrapping at 0xFF.
pub open spec fn spec_inc_b(m: MemoryView, c: Cpu) -> Outcome {
    done(m, Cpu { b: add8(c.b, 1), flags: flags_after_inc(c.flags, c.b), ..c.stepped(1, 4) })
}

/// 0x04 INC B.
pub fn inc_b<V: Video>(memory: &mut Memory<V>, cpu: &mut Cpu) -> (result: Result<(), Fault>)
    ensures
        ended(final(memory)@, *final(cpu), result) == spec_inc_b(old(memory)@, *old(cpu)),
        *final(memory) == *old(memory),
{
    cpu.increment_program_counter();
    cpu.clock_cycles(4);

    let b: u8 = cpu.b();
    cpu.flags.update_zero(b == 0xff);
    cpu.flags.clear_subtract();
    cpu.flags.update_half_carry(b == 0x80);

    cpu.set_b(b.wrapping_add(1));
    Ok(())
}

/// INC H: one byte, four cycles; H goes up by one, wrapping at 0xFF.
pub open spec fn spec_inc_h(m: MemoryView, c: Cpu) -> Outcome {
    done(m, Cpu { h: add8(c.h, 1), flags: flags_after_inc(c.flags, c.h), ..c.stepped(1, 4) })
}

/// 0x24 INC H.
pub fn inc_h<V: Video>(memory: &mut Memory<V>, cpu: &mut Cpu) -> (result: Result<(), Fault>)
    ensures
        ended(final(memory)@, *final(cpu), result) == spec_inc_h(old(memory)@, *old(cpu)),
        *final(memory) == *old(memory),
{
    cpu.increment_program_counter();
    cpu.clock_cycles(4);

    let h: u8 = cpu.h();
    cpu.flags.update_zero(h == 0xff);
    cpu.flags.clear_subtract();
    cpu.flags.update_half_carry(h == 0x80);

    cpu.set_h(h.wrapping_add(1));
    Ok(())
}

} // verus!
