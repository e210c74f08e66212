//! Rotates of the extended table.

use vstd::prelude::*;
use crate::cpu::{Cpu, Flags};
use crate::fault::Fault;
use crate::memory::{Memory, MemoryView};
use crate::opcodes::{done, ended, Outcome};
use crate::video::Video;

verus! {

/// `val` moved one bit to the left, bit 7 dropped, with `carry_in` as the
/// new bit 0.
pub open spec fn rotated_left(val: u8, carry_in: bool) -> u8 {
    ((val % 0x80) * 2 + if carry_in { 1int } else { 0int }) as u8
}

/// Shifts `val` one bit to the left and puts `carry_in` into bit 0.
pub fn rotate_left(val: u8, carry_in: bool) -> (rotated: u8)
    ensures
        rotated == rotated_left(val, carry_in),
{
    let shifted: u8 = val.wrapping_shl(1);
    assert(val << 1u32 == (val % 0x80) * 2 && ((val << 1u32) | 1) == (val % 0x80) * 2 + 1)
        by (bit_vector);
    if carry_in {
        shifted | 0b0000_0001
    } else {
        shifted
    }
}

/// RL C: one byte, four cycles; rotates C left through the carry flag and
/// sets the zero flag if the result is zero. Subtract and half-carry are
/// cleared.
pub open spec fn spec_rl_c(m: MemoryView, c: Cpu) -> Outcome {
    let rotated = rotated_left(c.c, c.flags.carry);
    done(
        m,
        Cpu {
            c: rotated,
            flags: Flags {
                zero: rotated == 0,
                subtract: false,
                half_carry: false,
                carry: c.c >= 0x80,
            },
            ..c.stepped(1, 4)
        },
    )
}

/// 0xCB 0x11 RL C.
pub fn rl_c<V: Video>(memory: &mut Memory<V>, cpu: &mut Cpu) -> (result: Result<(), Fault>)
    ensures
        ended(final(memory)@, *final(cpu), result) == spec_rl_c(old(memory)@, *old(cpu)),
        *final(memory) == *old(memory),
{
    cpu.increment_program_counter();
    cpu.clock_cycles(4);

    let c: u8 = rl(cpu, cpu.c());
    cpu.flags.update_zero(c == 0);
    cpu.set_c(c);
    Ok(())
}

/// Rotates `val` left through the carry flag: returns the rotated byte,
/// makes bit 7 of `val` the new carry, and clears subtract and half-carry.
pub fn rl(cpu: &mut Cpu, val: u8) -> (rotated: u8)
    ensures
        rotated == rotated_left(val, old(cpu).flags.carry),
        *final(cpu) == (Cpu {
            flags: Flags {
                subtract: false,
                half_carry: false,
                carry: val >= 0x80,
                ..old(cpu).flags
            },
            ..*old(cpu)
        }),
{
    let new_carry = val >= 0b1000_0000;
    let new_val: u8 = rotate_left(val, cpu.flags.c());
    cpu.flags.clear_half_carry();
    cpu.flags.clear_subtract();
    cpu.flags.update_carry(new_carry);

    new_val
}

} // verus!
