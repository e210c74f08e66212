//! Bit tests and bit resets of the extended table.

use vstd::prelude::*;
use crate::cpu::{bit_at, Cpu, Flags};
use crate::fault::Fault;
use crate::memory::{Memory, MemoryView};
use crate::opcodes::{done, ended, Outcome};
use crate::video::Video;

verus! {

/// BIT 7,H: one byte, four cycles; sets the zero flag if bit 7 of H is
/// clear. Subtract is cleared, half-carry set, carry kept.
pub open spec fn spec_bit_7_h(m: MemoryView, c: Cpu) -> Outcome {
    done(
        m,
        Cpu {
            flags: Flags { zero: !bit_at(c.h, 7), subtract: false, half_carry: true, ..c.flags },
            ..c.stepped(1, 4)
        },
    )
}

/// 0xCB 0x7C BIT 7,H.
pub fn bit_7_h<V: Video>(memory: &mut Memory<V>, cpu: &mut Cpu) -> (result: Result<(), Fault>)
    ensures
        ended(final(memory)@, *final(cpu), result) == spec_bit_7_h(old(memory)@, *old(cpu)),
        *final(memory) == *old(memory),
{
    cpu.increment_program_counter();
    cpu.clock_cycles(4);

    cpu.flags.update_zero(bit_cleared(cpu.h(), 7));
    cpu.flags.clear_subtract();
    cpu.flags.set_half_carry();
    Ok(())
}

/// `value` with bit `bit` cleared.
pub open spec fn without_bit(value: u8, bit: u8) -> u8 {
    value & !(1u8 << bit)
}

/// RES 0,A: one byte, four cycles; clears bit 0 of A. The flags stay.
pub open spec fn spec_res_0_a(m: MemoryView, c: Cpu) -> Outcome {
    done(m, Cpu { a: without_bit(c.a, 0), ..c.stepped(1, 4) })
}

/// 0xCB 0x87 RES 0,A.
pub fn res_0_a<V: Video>(memory: &mut Memory<V>, cpu: &mut Cpu) -> (result: Result<(), Fault>)
    ensures
        ended(final(memory)@, *final(cpu), result) == spec_res_0_a(old(memory)@, *old(cpu)),
        *final(memory) == *old(memory),
        final(cpu).a == old(cpu).a - old(cpu).a % 2,
{
    cpu.increment_program_counter();
    cpu.clock_cycles(4);

    let mut val: u8 = cpu.a();
    assert(val & !(1u8 << 0u8) == val - val % 2) by (bit_vector);
    val = val & !(1u8 << 0u8);
    cpu.set_a(val);
    Ok(())
}

/// Whether bit `offset` of `value` is clear.
pub fn bit_cleared(value: u8, offset: u8) -> (cleared: bool)
    requires
        offset < 8,
    ensures
        cleared == !bit_at(value, offset),
{
    !bit_set(value, offset)
}

/// Whether bit `offset` of `value` is set.
pub fn bit_set(value: u8, offset: u8) -> (set: bool)
    requires
        offset < 8,
    ensures
        set == bit_at(value, offset),
{
    (value >> offset) & 1 == 1
}

} // verus!
