//! The register file, the four condition flags and the arithmetic helpers that
//! derive flags from a byte operation.

use vstd::prelude::*;
use crate::fault::Fault;
use crate::memory::{Memory, MemoryView};
use crate::video::Video;

verus! {

/// Number of clock cycles the hardware runs per second.
pub const CLOCK_HZ: u32 = 4_200_000;

/// Bit of the F register that holds the zero flag.
pub const BITMASK_ZERO: u8 = 0b1000_0000;

/// Bit of the F register that holds the subtract flag.
pub const BITMASK_SUBTRACT: u8 = 0b0100_0000;

/// Bit of the F register that holds the half-carry flag.
pub const BITMASK_HALF_CARRY: u8 = 0b0010_0000;

/// Bit of the F register that holds the carry flag.
pub const BITMASK_CARRY: u8 = 0b0001_0000;

/// Sum of two bytes, reduced modulo 256.
pub open spec fn add8(x: u8, y: u8) -> u8 {
    if x + y > 0xFF {
        (x + y - 0x100) as u8
    } else {
        (x + y) as u8
    }
}

/// Difference of two bytes, reduced modulo 256.
pub open spec fn sub8(x: u8, y: u8) -> u8 {
    if x < y {
        (x - y + 0x100) as u8
    } else {
        (x - y) as u8
    }
}

/// Sum of two words, reduced modulo 65,536.
pub open spec fn add16(x: u16, y: u16) -> u16 {
    if x + y > 0xFFFF {
        (x + y - 0x1_0000) as u16
    } else {
        (x + y) as u16
    }
}

/// Difference of two words, reduced modulo 65,536.
pub open spec fn sub16(x: u16, y: u16) -> u16 {
    if x < y {
        (x - y + 0x1_0000) as u16
    } else {
        (x - y) as u16
    }
}

/// Sum of two 32-bit counters, reduced modulo 2^32.
pub open spec fn add32(x: u32, y: u32) -> u32 {
    if x + y > 0xFFFF_FFFF {
        (x + y - 0x1_0000_0000) as u32
    } else {
        (x + y) as u32
    }
}

/// The word whose upper byte is `high` and whose lower byte is `low`.
pub open spec fn pack(high: u8, low: u8) -> u16 {
    (high * 0x100 + low) as u16
}

/// Upper byte of a word.
pub open spec fn high_byte(word: u16) -> u8 {
    (word / 0x100) as u8
}

/// Lower byte of a word.
pub open spec fn low_byte(word: u16) -> u8 {
    (word % 0x100) as u8
}

/// Whether bit `bit` of `value` is set, bit 0 being the lowest.
pub open spec fn bit_at(value: u8, bit: u8) -> bool {
    (value >> bit) & 1 == 1
}

/// Joins two bytes into a word, `high` in bits 8 to 15.
pub fn bytes_to_word(high: u8, low: u8) -> (word: u16)
    ensures
        word == pack(high, low),
{
    let h: u16 = high as u16;
    let l: u16 = low as u16;
    assert((h << 8) | l == h * 0x100 + l) by (bit_vector)
        requires
            h < 0x100,
            l < 0x100,
    ;
    (h << 8) | l
}

/// Splits a word into its upper and its lower byte, in that order.
pub fn word_to_bytes(word: u16) -> (bytes: (u8, u8))
    ensures
        bytes.0 == high_byte(word),
        bytes.1 == low_byte(word),
{
    assert((word >> 8) == word / 0x100) by (bit_vector);
    assert((word & 0xFF) == word % 0x100) by (bit_vector);
    let high: u8 = (word >> 8) as u8;
    let low: u8 = (word & 0xFF) as u8;
    (high, low)
}

/// Splitting a word and joining the halves again gives the word back, and
/// joining two bytes and splitting the word gives the bytes back.
pub proof fn lemma_pack_round_trip(word: u16, high: u8, low: u8)
    ensures
        pack(high_byte(word), low_byte(word)) == word,
        high_byte(pack(high, low)) == high,
        low_byte(pack(high, low)) == low,
{
}

/// The four condition flags of the F register.
#[derive(Clone, Copy, Debug, PartialEq, Eq, Structural)]
pub struct Flags {
    pub zero: bool,
    pub subtract: bool,
    pub half_carry: bool,
    pub carry: bool,
}

impl Flags {
    /// The F register as a byte: the flags in its upper nibble, zero below.
    pub open spec fn spec_bits(self) -> u8 {
        ((if self.zero { 0x80int } else { 0 })
            + (if self.subtract { 0x40int } else { 0 })
            + (if self.half_carry { 0x20int } else { 0 })
            + (if self.carry { 0x10int } else { 0 })) as u8
    }

    /// All four flags clear.
    pub fn new() -> (flags: Flags)
        ensures
            flags == (Flags { zero: false, subtract: false, half_carry: false, carry: false }),
    {
        Flags { zero: false, subtract: false, half_carry: false, carry: false }
    }

    /// The F register as a byte. Each flag sits at its mask and the lower
    /// nibble is zero.
    #[verifier::when_used_as_spec(spec_bits)]
    pub fn bits(self) -> (f: u8)
        ensures
            f == self.spec_bits(),
            f % 0x10 == 0,
            f & BITMASK_ZERO != 0 <==> self.zero,
            f & BITMASK_SUBTRACT != 0 <==> self.subtract,
            f & BITMASK_HALF_CARRY != 0 <==> self.half_carry,
            f & BITMASK_CARRY != 0 <==> self.carry,
    {
        let z: u8 = if self.zero { BITMASK_ZERO } else { 0 };
        let n: u8 = if self.subtract { BITMASK_SUBTRACT } else { 0 };
        let h: u8 = if self.half_carry { BITMASK_HALF_CARRY } else { 0 };
        let c: u8 = if self.carry { BITMASK_CARRY } else { 0 };
        assert((z == 0x80 || z == 0) && (n == 0x40 || n == 0) && (h == 0x20 || h == 0) && (c
            == 0x10 || c == 0) ==> {
            &&& z | n | h | c == z + n + h + c
            &&& ((z | n | h | c) & 0x80 != 0 <==> z != 0)
            &&& ((z | n | h | c) & 0x40 != 0 <==> n != 0)
            &&& ((z | n | h | c) & 0x20 != 0 <==> h != 0)
            &&& ((z | n | h | c) & 0x10 != 0 <==> c != 0)
        }) by (bit_vector);
        z | n | h | c
    }

    /// Zero flag: the last result was zero, or a compare found equal values.
    pub fn z(&self) -> (set: bool)
        ensures
            set == self.zero,
    {
        self.zero
    }

    /// Subtract flag: the last arithmetic instruction subtracted.
    pub fn n(&self) -> (set: bool)
        ensures
            set == self.subtract,
    {
        self.subtract
    }

    /// Half-carry flag: the last operation carried out of the lower nibble.
    pub fn h(&self) -> (set: bool)
        ensures
            set == self.half_carry,
    {
        self.half_carry
    }

    /// Carry flag: the last operation carried out of the byte, or a compare
    /// found the accumulator smaller.
    pub fn c(&self) -> (set: bool)
        ensures
            set == self.carry,
    {
        self.carry
    }

    pub fn set_zero(&mut self)
        ensures
            *final(self) == (Flags { zero: true, ..*old(self) }),
    {
        self.update_zero(true);
    }

    pub fn set_half_carry(&mut self)
        ensures
            *final(self) == (Flags { half_carry: true, ..*old(self) }),
    {
        self.update_half_carry(true);
    }

    pub fn set_subtract(&mut self)
        ensures
            *final(self) == (Flags { subtract: true, ..*old(self) }),
    {
        self.update_subtract(true);
    }

    pub fn clear_zero(&mut self)
        ensures
            *final(self) == (Flags { zero: false, ..*old(self) }),
    {
        self.update_zero(false);
    }

    pub fn clear_subtract(&mut self)
        ensures
            *final(self) == (Flags { subtract: false, ..*old(self) }),
    {
        self.update_subtract(false);
    }

    pub fn clear_half_carry(&mut self)
        ensures
            *final(self) == (Flags { half_carry: false, ..*old(self) }),
    {
        self.update_half_carry(false);
    }

    pub fn clear_carry(&mut self)
        ensures
            *final(self) == (Flags { carry: false, ..*old(self) }),
    {
        self.update_carry(false);
    }

    pub fn update_zero(&mut self, zero: bool)
        ensures
            *final(self) == (Flags { zero, ..*old(self) }),
    {
        self.zero = zero;
    }

    pub fn update_subtract(&mut self, subtract: bool)
        ensures
            *final(self) == (Flags { subtract, ..*old(self) }),
    {
        self.subtract = subtract;
    }

    pub fn update_half_carry(&mut self, half_carry: bool)
        ensures
            *final(self) == (Flags { half_carry, ..*old(self) }),
    {
        self.half_carry = half_carry;
    }

    pub fn update_carry(&mut self, carry: bool)
        ensures
            *final(self) == (Flags { carry, ..*old(self) }),
    {
        self.carry = carry;
    }
}

/// The register file with the cycle counters that the execution loop reads.
#[derive(Clone, Copy, Debug, PartialEq, Eq, Structural)]
pub struct Cpu {
    pub a: u8,
    pub b: u8,
    pub c: u8,
    pub d: u8,
    pub e: u8,
    pub h: u8,
    pub l: u8,
    pub sp: u16,
    pub pc: u16,
    /// The F register.
    pub flags: Flags,
    /// Cycles run since the last frame was reported.
    pub cycles: u32,
    /// Cycles run that the scanline timing has not consumed yet.
    pub scanline_cycles: u16,
}

impl Default for Cpu {
    /// The registers at power-on: the stack pointer at 0xFFFE, all else zero.
    fn default() -> (cpu: Cpu)
        ensures
            cpu == Cpu::initial(),
    {
        Cpu {
            a: 0,
            b: 0,
            c: 0,
            d: 0,
            e: 0,
            h: 0,
            l: 0,
            sp: 0xFFFE,
            pc: 0x0,
            flags: Flags::new(),
            cycles: 0,
            scanline_cycles: 0,
        }
    }
}

impl Cpu {
    /// The registers at power-on.
    pub open spec fn initial() -> Cpu {
        Cpu {
            a: 0,
            b: 0,
            c: 0,
            d: 0,
            e: 0,
            h: 0,
            l: 0,
            sp: 0xFFFE,
            pc: 0,
            flags: Flags { zero: false, subtract: false, half_carry: false, carry: false },
            cycles: 0,
            scanline_cycles: 0,
        }
    }

    /// A and F as one word, A above.
    pub open spec fn spec_af(&self) -> u16 {
        pack(self.a, self.flags.spec_bits())
    }

    /// B and C as one word, B above.
    pub open spec fn spec_bc(&self) -> u16 {
        pack(self.b, self.c)
    }

    /// D and E as one word, D above.
    pub open spec fn spec_de(&self) -> u16 {
        pack(self.d, self.e)
    }

    /// H and L as one word, H above.
    pub open spec fn spec_hl(&self) -> u16 {
        pack(self.h, self.l)
    }

    /// The registers with B and C replaced by the two halves of `val`.
    pub open spec fn with_bc(self, val: u16) -> Cpu {
        Cpu { b: high_byte(val), c: low_byte(val), ..self }
    }

    /// The registers with D and E replaced by the two halves of `val`.
    pub open spec fn with_de(self, val: u16) -> Cpu {
        Cpu { d: high_byte(val), e: low_byte(val), ..self }
    }

    /// The registers with H and L replaced by the two halves of `val`.
    pub open spec fn with_hl(self, val: u16) -> Cpu {
        Cpu { h: high_byte(val), l: low_byte(val), ..self }
    }

    /// The registers after `cycles` more cycles have been counted.
    pub open spec fn clocked(self, cycles: u16) -> Cpu {
        Cpu {
            cycles: add32(self.cycles, cycles as u32),
            scanline_cycles: add16(self.scanline_cycles, cycles),
            ..self
        }
    }

    /// The registers with the program counter moved `bytes` ahead.
    pub open spec fn advanced(self, bytes: u16) -> Cpu {
        Cpu { pc: add16(self.pc, bytes), ..self }
    }

    /// The registers after an instruction of `bytes` bytes and `cycles` cycles
    /// that changes nothing else.
    pub open spec fn stepped(self, bytes: u16, cycles: u16) -> Cpu {
        self.advanced(bytes).clocked(cycles)
    }

    /// Number of cycles that make up one frame at `fps` frames per second.
    pub open spec fn frame_cycles(fps: u32) -> u32
        recommends
            fps > 0,
    {
        CLOCK_HZ / fps
    }

    /// The registers after `val`, and the carry flag if `with_carry` asks for
    /// it, have been added to A. The carry-in is added to the operand first;
    /// half-carry and carry are then those of adding that sum to A.
    pub open spec fn after_add_a(self, val: u8, with_carry: bool) -> Cpu {
        let operand = add8(val, if with_carry && self.flags.carry { 1u8 } else { 0u8 });
        let new_a = add8(self.a, operand);
        Cpu {
            a: new_a,
            flags: Flags {
                zero: new_a == 0,
                subtract: false,
                half_carry: self.a % 0x10 + operand % 0x10 >= 0x10,
                carry: self.a + operand > 0xFF,
            },
            ..self
        }
    }

    /// The registers after A has been compared with `val`: the flags of
    /// `A - val`, with A itself kept.
    pub open spec fn after_compare(self, val: u8) -> Cpu {
        Cpu {
            flags: Flags {
                zero: sub8(self.a, val) == 0,
                subtract: true,
                half_carry: self.a % 0x10 < val % 0x10,
                carry: self.a < val,
            },
            ..self
        }
    }

    /// The registers after `val` has been subtracted from A: carry is the
    /// borrow out of the byte, half-carry the borrow out of the lower nibble.
    pub open spec fn after_sub_a(self, val: u8) -> Cpu {
        let new_a = sub8(self.a, val);
        Cpu {
            a: new_a,
            flags: Flags {
                zero: new_a == 0,
                subtract: true,
                half_carry: self.a % 0x10 < val % 0x10,
                carry: self.a < val,
            },
            ..self
        }
    }

    /// The registers after a push of `value` onto a stack in `memory`: the
    /// stack pointer two lower if the word could be written, and as it was
    /// if not.
    pub open spec fn pushed(self, memory: MemoryView, value: u16) -> Cpu {
        if memory.write_word(self.sp, value).is_ok() {
            Cpu { sp: sub16(self.sp, 2), ..self }
        } else {
            self
        }
    }

    /// The registers after a pop: the stack pointer two higher.
    pub open spec fn popped(self) -> Cpu {
        Cpu { sp: add16(self.sp, 2), ..self }
    }

    pub fn program_counter(&self) -> (pc: u16)
        ensures
            pc == self.pc,
    {
        self.pc
    }

    /// Moves the program counter one byte ahead, from 0xFFFF round to 0.
    pub fn increment_program_counter(&mut self)
        ensures
            *final(self) == old(self).advanced(1),
    {
        self.pc = self.pc.wrapping_add(1);
    }

    pub fn set_program_counter(&mut self, pc: u16)
        ensures
            *final(self) == (Cpu { pc, ..*old(self) }),
    {
        self.pc = pc;
    }

    /// Counts `cycles` on both cycle counters, each wrapping at its width.
    pub fn clock_cycles(&mut self, cycles: u16)
        ensures
            *final(self) == old(self).clocked(cycles),
    {
        self.cycles = self.cycles.wrapping_add(cycles as u32);
        self.scanline_cycles = self.scanline_cycles.wrapping_add(cycles);
    }

    pub fn a(&self) -> (val: u8)
        ensures
            val == self.a,
    {
        self.a
    }

    pub fn b(&self) -> (val: u8)
        ensures
            val == self.b,
    {
        self.b
    }

    pub fn c(&self) -> (val: u8)
        ensures
            val == self.c,
    {
        self.c
    }

    pub fn d(&self) -> (val: u8)
        ensures
            val == self.d,
    {
        self.d
    }

    pub fn e(&self) -> (val: u8)
        ensures
            val == self.e,
    {
        self.e
    }

    pub fn h(&self) -> (val: u8)
        ensures
            val == self.h,
    {
        self.h
    }

    pub fn l(&self) -> (val: u8)
        ensures
            val == self.l,
    {
        self.l
    }

    #[verifier::when_used_as_spec(spec_af)]
    pub fn af(&self) -> (val: u16)
        ensures
            val == self.spec_af(),
    {
        bytes_to_word(self.a, self.flags.bits())
    }

    #[verifier::when_used_as_spec(spec_bc)]
    pub fn bc(&self) -> (val: u16)
        ensures
            val == self.spec_bc(),
    {
        bytes_to_word(self.b, self.c)
    }

    #[verifier::when_used_as_spec(spec_de)]
    pub fn de(&self) -> (val: u16)
        ensures
            val == self.spec_de(),
    {
        bytes_to_word(self.d, self.e)
    }

    #[verifier::when_used_as_spec(spec_hl)]
    pub fn hl(&self) -> (val: u16)
        ensures
            val == self.spec_hl(),
    {
        bytes_to_word(self.h, self.l)
    }

    pub fn stack_pointer(&self) -> (sp: u16)
        ensures
            sp == self.sp,
    {
        self.sp
    }

    pub fn set_a(&mut self, val: u8)
        ensures
            *final(self) == (Cpu { a: val, ..*old(self) }),
    {
        self.a = val;
    }

    pub fn set_b(&mut self, val: u8)
        ensures
            *final(self) == (Cpu { b: val, ..*old(self) }),
    {
        self.b = val;
    }

    pub fn set_c(&mut self, val: u8)
        ensures
            *final(self) == (Cpu { c: val, ..*old(self) }),
    {
        self.c = val;
    }

    pub fn set_d(&mut self, val: u8)
        ensures
            *final(self) == (Cpu { d: val, ..*old(self) }),
    {
        self.d = val;
    }

    pub fn set_e(&mut self, val: u8)
        ensures
            *final(self) == (Cpu { e: val, ..*old(self) }),
    {
        self.e = val;
    }

    pub fn set_h(&mut self, val: u8)
        ensures
            *final(self) == (Cpu { h: val, ..*old(self) }),
    {
        self.h = val;
    }

    pub fn set_l(&mut self, val: u8)
        ensures
            *final(self) == (Cpu { l: val, ..*old(self) }),
    {
        self.l = val;
    }

    /// Writes `val` to the pair B and C: the upper byte to B, then the lower
    /// byte to C.
    pub fn set_bc(&mut self, val: u16)
        ensures
            *final(self) == old(self).with_bc(val),
            final(self).spec_bc() == val,
    {
        let (b, c) = word_to_bytes(val);
        self.b = b;
        self.c = c;
    }

    /// Writes `val` to the pair D and E: the upper byte to D, then the lower
    /// byte to E.
    pub fn set_de(&mut self, val: u16)
        ensures
            *final(self) == old(self).with_de(val),
            final(self).spec_de() == val,
    {
        let (d, e) = word_to_bytes(val);
        self.d = d;
        self.e = e;
    }

    pub fn set_sp(&mut self, val: u16)
        ensures
            *final(self) == (Cpu { sp: val, ..*old(self) }),
    {
        self.sp = val;
    }

    /// Writes `val` to the pair H and L: the upper byte to H, then the lower
    /// byte to L.
    pub fn set_hl(&mut self, val: u16)
        ensures
            *final(self) == old(self).with_hl(val),
            final(self).spec_hl() == val,
    {
        let (h, l) = word_to_bytes(val);
        self.h = h;
        self.l = l;
    }

    /// Reports whether the cycles of one frame have been counted, and if so
    /// takes one frame's cycles off the count.
    pub fn frame_elapsed(&mut self, fps: u32) -> (elapsed: bool)
        requires
            fps > 0,
        ensures
            elapsed == (old(self).cycles >= Cpu::frame_cycles(fps)),
            *final(self) == (Cpu {
                cycles: if elapsed {
                    (old(self).cycles - Cpu::frame_cycles(fps)) as u32
                } else {
                    old(self).cycles
                },
                ..*old(self)
            }),
    {
        let target_cycles: u32 = CLOCK_HZ / fps;
        if self.cycles >= target_cycles {
            self.cycles -= target_cycles;
            true
        } else {
            false
        }
    }

    /// Adds `val` to A, and with it the carry flag if `with_carry` is set,
    /// and sets all four flags from the addition.
    pub fn add_a(&mut self, val: u8, with_carry: bool)
        ensures
            *final(self) == old(self).after_add_a(val, with_carry),
    {
        let carry_in: u8 = if with_carry && self.flags.c() { 1 } else { 0 };
        let val: u8 = val.wrapping_add(carry_in);
        let half_carry = (self.a % 0x10) + (val % 0x10) >= 0x10;
        let carry = self.a > 0xFF - val;
        let new_a: u8 = self.a.wrapping_add(val);

        self.flags.update_half_carry(half_carry);
        self.flags.update_carry(carry);
        self.flags.update_zero(new_a == 0);
        self.flags.clear_subtract();

        self.a = new_a;
    }

    /// Sets the flags as subtracting `val` from A would, and leaves A as it is.
    pub fn cmp_a_with(&mut self, val: u8)
        ensures
            *final(self) == old(self).after_compare(val),
    {
        let r: u8 = self.a.wrapping_sub(val);
        self.flags.update_zero(r == 0);
        self.flags.update_half_carry((self.a % 0x10) < (val % 0x10));
        self.flags.set_subtract();
        self.flags.update_carry(self.a < val);
    }

    /// Moves the stack pointer up by two and reads the word it then points
    /// at.
    pub fn pop_stack<V: Video>(&mut self, memory: &mut Memory<V>) -> (result: Result<u16, Fault>)
        ensures
            *final(self) == old(self).popped(),
            result == old(memory)@.read_word(final(self).sp),
            *final(memory) == *old(memory),
    {
        self.sp = self.sp.wrapping_add(2);
        memory.read_word(self.sp)
    }

    /// Writes `value` as a word where the stack pointer points, then moves
    /// the stack pointer down by two. A write that faults leaves the stack
    /// pointer where it was.
    pub fn push_stack<V: Video>(&mut self, memory: &mut Memory<V>, value: u16) -> (result: Result<
        (),
        Fault,
    >)
        ensures
            result == old(memory)@.write_word(old(self).sp, value),
            final(memory)@ == old(memory)@.word_written(old(self).sp, value),
            final(memory).banks() == old(memory).banks(),
            final(memory)@.tile_updates == old(memory)@.tile_updates ==> final(memory).display()
                == old(memory).display(),
            *final(self) == old(self).pushed(old(memory)@, value),
    {
        memory.write_word(self.sp, value)?;
        self.sp = self.sp.wrapping_sub(2);
        Ok(())
    }
}

/// The F register never holds anything in its lower nibble, each flag is
/// read off its own bit, and A and F pair up with A in the upper byte.
pub proof fn lemma_f_register(cpu: Cpu)
    ensures
        cpu.flags.spec_bits() % 0x10 == 0,
        cpu.flags.spec_bits() / 0x80 == 1 <==> cpu.flags.zero,
        (cpu.flags.spec_bits() / 0x40) % 2 == 1 <==> cpu.flags.subtract,
        (cpu.flags.spec_bits() / 0x20) % 2 == 1 <==> cpu.flags.half_carry,
        (cpu.flags.spec_bits() / 0x10) % 2 == 1 <==> cpu.flags.carry,
        high_byte(cpu.spec_af()) == cpu.a,
        low_byte(cpu.spec_af()) == cpu.flags.spec_bits(),
{
}

/// A compare sets the flags that the subtraction sets and differs from it
/// only in keeping A.
pub proof fn lemma_compare_is_subtract_without_store(cpu: Cpu, val: u8)
    ensures
        cpu.after_compare(val).flags == cpu.after_sub_a(val).flags,
        cpu.after_compare(val) == (Cpu { a: cpu.a, ..cpu.after_sub_a(val) }),
        cpu.after_compare(val).flags.zero <==> cpu.a == val,
{
}

/// A word written to a register pair is the word read from it, whatever the
/// registers held, and a pair written from two bytes holds the first in its
/// upper register and the second in its lower one.
pub proof fn lemma_pair_round_trip(cpu: Cpu, val: u16, high: u8, low: u8)
    ensures
        cpu.with_bc(val).spec_bc() == val,
        cpu.with_de(val).spec_de() == val,
        cpu.with_hl(val).spec_hl() == val,
        cpu.with_bc(pack(high, low)).b == high && cpu.with_bc(pack(high, low)).c == low,
        cpu.with_de(pack(high, low)).d == high && cpu.with_de(pack(high, low)).e == low,
        cpu.with_hl(pack(high, low)).h == high && cpu.with_hl(pack(high, low)).l == low,
{
    lemma_pack_round_trip(val, high, low);
}

/// A word pushed is the word popped next, and the pair leaves the stack
/// pointer where it was: if the push of `value` succeeds, the pop that follows
/// returns `value` and restores the registers. A stack among the hardware
/// registers is left out: what is written there cannot be read back.
pub proof fn lemma_push_pop_round_trip(cpu: Cpu, memory: MemoryView, value: u16)
    requires
        memory.wf(),
        memory.write_word(cpu.sp, value).is_ok(),
        !crate::memory::is_io_register(cpu.sp),
    ensures
        cpu.pushed(memory, value).popped() == cpu,
        memory.word_written(cpu.sp, value).read_word(cpu.pushed(memory, value).popped().sp)
            == Ok::<u16, Fault>(value),
{
    crate::memory::lemma_word_written_then_read(memory, cpu.sp, value);
}

} // verus!
