//! Subtractions and decrements.

use vstd::prelude::*;
use crate::cpu::{sub16, sub8, Cpu, Flags};
use crate::fault::Fault;
use crate::memory::{Memory, MemoryView};
use crate::opcodes::{done, ended, Outcome};
use crate::video::Video;

verus! {

/// DEC BC: one byte, eight cycles; BC goes down by one, the flags stay.
pub open spec fn spec_dec_bc(m: MemoryView, c: Cpu) -> Outcome {
    done(m, c.stepped(1, 8).with_bc(sub16(c.spec_bc(), 1)))
}

/// 0x0B DEC BC.
pub fn dec_bc<V: Video>(memory: &mut Memory<V>, cpu: &mut Cpu) -> (result: Result<(), Fault>)
    ensures
        ended(final(memory)@, *final(cpu), result) == spec_dec_bc(old(memory)@, *old(cpu)),
        *final(memory) == *old(memory),
{
    cpu.clock_cycles(8);
    cpu.increment_program_counter();
    cpu.set_bc(cpu.bc().wrapping_sub(1));
    Ok(())
}

/// The flags after an 8-bit decrement of a register that held `before`:
/// zero when it held 1, half-carry when it held 0x10, subtract set, carry
/// kept.
pub open spec fn flags_after_dec(flags: Flags, before: u8) -> Flags {
    Flags { zero: before == 1, subtract: true, half_carry: before == 0x10, ..flags }
}

/// DEC C: one byte, four cycles; C goes down by one, wrapping at zero.
pub open spec fn spec_dec_c(m: MemoryView, c: Cpu) -> Outcome {
    done(m, Cpu { c: sub8(c.c, 1), flags: flags_after_dec(c.flags, c.c), ..c.stepped(1, 4) })
}

/// 0x0D DEC C.
pub fn dec_c<V: Video>(memory: &mut Memory<V>, cpu: &mut Cpu) -> (result: Result<(), Fault>)
    ensures
        ended(final(memory)@, *final(cpu), result) == spec_dec_c(old(memory)@, *old(cpu)),
        *final(memory) == *old(memory),
{
    cpu.clock_cycles(4);
    cpu.increment_program_counter();

    let c: u8 = cpu.c();
    cpu.flags.update_zero(c == 1);
    cpu.flags.update_half_carry(c == 0x10);
    cpu.flags.set_subtract();

    cpu.set_c(c.wrapping_sub(1));
    Ok(())
}

/// DEC B: one byte, four cycles; B goes down by one, wrapping at zero.
pub open spec fn spec_dec_b(m: MemoryView, c: Cpu) -> Outcome {
    done(m, Cpu { b: sub8(c.b, 1), flags: flags_after_dec(c.flags, c.b), ..c.stepped(1, 4) })
}

/// 0x05 DEC B.
pub fn dec_b<V: Video>(memory: &mut Memory<V>, cpu: &mut Cpu) -> (result: Result<(), Fault>)
    ensures
        ended(final(memory)@, *final(cpu), result) == spec_dec_b(old(memory)@, *old(cpu)),
        *final(memory) == *old(memory),
{
    cpu.clock_cycles(4);
    cpu.increment_program_counter();

    let b: u8 = cpu.b();
    cpu.flags.update_zero(b == 1);
    cpu.flags.update_half_carry(b == 0x10);
    cpu.flags.set_subtract();

    cpu.set_b(b.wrapping_sub(1));
    Ok(())
}

/// DEC A: one byte, four cycles; A goes down by one, wrapping at zero.
pub open spec fn spec_dec_a(m: MemoryView, c: Cpu) -> Outcome {
    done(m, Cpu { a: sub8(c.a, 1), flags: flags_after_dec(c.flags, c.a), ..c.stepped(1, 4) })
}

/// 0x3D DEC A.
pub fn dec_a<V: Video>(memory: &mut Memory<V>, cpu: &mut Cpu) -> (result: Result<(), Fault>)
    ensures
        ended(final(memory)@, *final(cpu), result) == spec_dec_a(old(memory)@, *old(cpu)),
        *final(memory) == *old(memory),
{
    cpu.clock_cycles(4);
    cpu.increment_program_counter();

    let a: u8 = cpu.a();
    cpu.flags.update_zero(a == 1);
    cpu.flags.update_half_carry(a == 0x10);
    cpu.flags.set_subtract();

    cpu.set_a(a.wrapping_sub(1));
    Ok(())
}

/// DEC E: one byte, four cycles; E goes down by one, wrapping at zero.
pub open spec fn spec_dec_e(m: MemoryView, c: Cpu) -> Outcome {
    done(m, Cpu { e: sub8(c.e, 1), flags: flags_after_dec(c.flags, c.e), ..c.stepped(1, 4) })
}

/// 0x1D DEC E.
pub fn dec_e<V: Video>(memory: &mut Memory<V>, cpu: &mut Cpu) -> (result: Result<(), Fault>)
    ensures
        ended(final(memory)@, *final(cpu), result) == spec_dec_e(old(memory)@, *old(cpu)),
        *final(memory) == *old(memory),
{
    cpu.clock_cycles(4);
    cpu.increment_program_counter();

    let e: u8 = cpu.e();
    cpu.flags.update_zero(e == 1);
    cpu.flags.update_half_carry(e == 0x10);
    cpu.flags.set_subtract();

    cpu.set_e(e.wrapping_sub(1));
    Ok(())
}

/// DEC D: one byte, four cycles; D goes down by one, wrapping at zero.
pub open spec fn spec_dec_d(m: MemoryView, c: Cpu) -> Outcome {
    done(m, Cpu { d: sub8(c.d, 1), flags: flags_after_dec(c.flags, c.d), ..c.stepped(1, 4) })
}

/// 0x15 DEC D.
pub fn dec_d<V: Video>(memory: &mut Memory<V>, cpu: &mut Cpu) -> (result: Result<(), Fault>)
    ensures
        ended(final(memory)@, *final(cpu), result) == spec_dec_d(old(memory)@, *old(cpu)),
        *final(memory) == *old(memory),
{
    cpu.clock_cycles(4);
    cpu.increment_program_counter();

    let d: u8 = cpu.d();
    cpu.flags.update_zero(d == 1);
    cpu.flags.update_half_carry(d == 0x10);
    cpu.flags.set_subtract();

    cpu.set_d(d.wrapping_sub(1));
    Ok(())
}

/// SUB B: one byte, four cycles; subtracts B from A.
pub open spec fn spec_sub_b(m: MemoryView, c: Cpu) -> Outcome {
    done(m, c.stepped(1, 4).after_sub_a(c.b))
}

/// 0x90 SUB B.
pub fn sub_b<V: Video>(memory: &mut Memory<V>, cpu: &mut Cpu) -> (result: Result<(), Fault>)
    ensures
        ended(final(memory)@, *final(cpu), result) == spec_sub_b(old(memory)@, *old(cpu)),
        *final(memory) == *old(memory),
{
    cpu.increment_program_counter();
    cpu.clock_cycles(4);

    let b: u8 = cpu.b();
    do_sub(cpu, b);
    Ok(())
}

/// Subtracts `val` from A and sets all four flags. The borrows are read off
/// the exclusive or of the two operands and the 16-bit difference: bit 8 is
/// the borrow out of the byte, bit 4 the borrow out of the lower nibble.
pub fn do_sub(cpu: &mut Cpu, val: u8)
    ensures
        *final(cpu) == old(cpu).after_sub_a(val),
{
    let a: u8 = cpu.a();
    let new_a: u8 = a.wrapping_sub(val);
    let wide_a: u16 = a as u16;
    let wide_val: u16 = val as u16;
    let difference: u16 = wide_a.wrapping_sub(wide_val);

    let carry_bit: u16 = wide_a ^ wide_val ^ difference;
    assert(((wide_a ^ wide_val ^ difference) & 0x100 > 0) == (wide_a < wide_val) && ((wide_a
        ^ wide_val ^ difference) & 0x10 > 0) == (wide_a % 0x10 < wide_val % 0x10))
        by (bit_vector)
        requires
            wide_a < 0x100,
            wide_val < 0x100,
            wide_a >= wide_val ==> difference == wide_a - wide_val,
            wide_a < wide_val ==> difference == 0x1_0000 - wide_val + wide_a,
    ;

    cpu.flags.update_zero(new_a == 0);
    cpu.flags.update_carry(carry_bit & 0x100 > 0);
    cpu.flags.set_subtract();
    cpu.flags.update_half_carry(carry_bit & 0x10 > 0);

    cpu.set_a(new_a);
}

} // verus!
