//! Loads between registers, and between registers and the address space.

use vstd::prelude::*;
use crate::cpu::{add16, sub16, Cpu};
use crate::fault::Fault;
use crate::memory::{Memory, MemoryView};
use crate::opcodes::{done, ended, failed, Outcome};
use crate::video::Video;

verus! {

/// The hardware register that the offset `offset` selects: 0xFF00 plus the
/// offset.
pub open spec fn high_page(offset: u8) -> u16 {
    (0xFF00 + offset) as u16
}

/// LD H,(HL): one byte, eight cycles; loads the byte that HL points at
/// into H.
pub open spec fn spec_ld_h_ptr_hl(m: MemoryView, c: Cpu) -> Outcome {
    let c1 = c.stepped(1, 8);
    match m.read_byte(c1.spec_hl()) {
        Err(fault) => failed(m, c1, fault),
        Ok(val) => done(m, Cpu { h: val, ..c1 }),
    }
}

/// 0x66 LD H,(HL).
pub fn ld_h_ptr_hl<V: Video>(memory: &mut Memory<V>, cpu: &mut Cpu) -> (result: Result<(), Fault>)
    ensures
        ended(final(memory)@, *final(cpu), result) == spec_ld_h_ptr_hl(old(memory)@, *old(cpu)),
        *final(memory) == *old(memory),
{
    cpu.increment_program_counter();
    cpu.clock_cycles(8);

    let hl: u16 = cpu.hl();
    let val: u8 = memory.read_byte(hl)?;
    cpu.set_h(val);
    Ok(())
}

/// LD (HL),E: one byte, eight cycles; stores E where HL points.
pub open spec fn spec_ld_ptr_hl_e(m: MemoryView, c: Cpu) -> Outcome {
    ended(m.written(c.spec_hl(), c.e), c.stepped(1, 8), m.write_byte(c.spec_hl(), c.e))
}

/// 0x73 LD (HL),E.
pub fn ld_ptr_hl_e<V: Video>(memory: &mut Memory<V>, cpu: &mut Cpu) -> (result: Result<(), Fault>)
    ensures
        ended(final(memory)@, *final(cpu), result) == spec_ld_ptr_hl_e(old(memory)@, *old(cpu)),
        final(memory).banks() == old(memory).banks(),
        final(memory)@.tile_updates == old(memory)@.tile_updates ==> final(memory).display()
            == old(memory).display(),
{
    cpu.clock_cycles(8);
    cpu.increment_program_counter();

    let val: u8 = cpu.e();
    let address: u16 = cpu.hl();

    memory.write_byte(address, val)
}

/// LD (a16),SP: three bytes, twenty cycles; stores the stack pointer as a
/// word at the address after the opcode.
pub open spec fn spec_ld_ptr_a16_sp(m: MemoryView, c: Cpu) -> Outcome {
    let c1 = c.stepped(1, 20);
    match m.read_word(c1.pc) {
        Err(fault) => failed(m, c1, fault),
        Ok(address) => ended(
            m.word_written(address, c.sp),
            c1.advanced(2),
            m.write_word(address, c.sp),
        ),
    }
}

/// 0x08 LD (a16),SP.
pub fn ld_ptr_a16_sp<V: Video>(memory: &mut Memory<V>, cpu: &mut Cpu) -> (result: Result<(), Fault>)
    ensures
        ended(final(memory)@, *final(cpu), result) == spec_ld_ptr_a16_sp(old(memory)@, *old(cpu)),
        final(memory).banks() == old(memory).banks(),
        final(memory)@.tile_updates == old(memory)@.tile_updates ==> final(memory).display()
            == old(memory).display(),
{
    cpu.clock_cycles(20);
    cpu.increment_program_counter();
    let address: u16 = memory.read_word(cpu.program_counter())?;
    cpu.increment_program_counter();
    cpu.increment_program_counter();

    memory.write_word(address, cpu.stack_pointer())
}

/// LD C,d8: two bytes, eight cycles; loads the byte after the opcode into
/// C.
pub open spec fn spec_ld_c_d8(m: MemoryView, c: Cpu) -> Outcome {
    let c1 = c.stepped(1, 8);
    match m.read_byte(c1.pc) {
        Err(fault) => failed(m, c1, fault),
        Ok(val) => done(m, Cpu { c: val, ..c1.advanced(1) }),
    }
}

/// 0x0E LD C,d8.
pub fn ld_c_d8<V: Video>(memory: &mut Memory<V>, cpu: &mut Cpu) -> (result: Result<(), Fault>)
    ensures
        ended(final(memory)@, *final(cpu), result) == spec_ld_c_d8(old(memory)@, *old(cpu)),
        *final(memory) == *old(memory),
{
    cpu.clock_cycles(8);
    cpu.increment_program_counter();

    let val: u8 = memory.read_byte(cpu.program_counter())?;
    cpu.increment_program_counter();

    cpu.set_c(val);
    Ok(())
}

/// LD (a16),A: three bytes, sixteen cycles; stores A at the address after
/// the opcode.
pub open spec fn spec_ld_ptr_a16_a(m: MemoryView, c: Cpu) -> Outcome {
    let c1 = c.stepped(1, 16);
    match m.read_word(c1.pc) {
        Err(fault) => failed(m, c1, fault),
        Ok(address) => ended(m.written(address, c.a), c1.advanced(2), m.write_byte(address, c.a)),
    }
}

/// 0xEA LD (a16),A.
pub fn ld_ptr_a16_a<V: Video>(memory: &mut Memory<V>, cpu: &mut Cpu) -> (result: Result<(), Fault>)
    ensures
        ended(final(memory)@, *final(cpu), result) == spec_ld_ptr_a16_a(old(memory)@, *old(cpu)),
        final(memory).banks() == old(memory).banks(),
        final(memory)@.tile_updates == old(memory)@.tile_updates ==> final(memory).display()
            == old(memory).display(),
{
    cpu.increment_program_counter();
    cpu.clock_cycles(16);
    let address: u16 = memory.read_word(cpu.program_counter())?;
    cpu.increment_program_counter();
    cpu.increment_program_counter();

    memory.write_byte(address, cpu.a())
}

/// LDH (a8),A: two bytes, twelve cycles; stores A at the hardware register
/// that the byte after the opcode selects.
pub open spec fn spec_ldh_ptr_a8_a(m: MemoryView, c: Cpu) -> Outcome {
    let c1 = c.stepped(1, 12);
    match m.read_byte(c1.pc) {
        Err(fault) => failed(m, c1, fault),
        Ok(offset) => ended(
            m.written(high_page(offset), c.a),
            c1.advanced(1),
            m.write_byte(high_page(offset), c.a),
        ),
    }
}

/// 0xE0 LDH (a8),A.
pub fn ldh_ptr_a8_a<V: Video>(memory: &mut Memory<V>, cpu: &mut Cpu) -> (result: Result<(), Fault>)
    ensures
        ended(final(memory)@, *final(cpu), result) == spec_ldh_ptr_a8_a(old(memory)@, *old(cpu)),
        final(memory).banks() == old(memory).banks(),
        final(memory)@.tile_updates == old(memory)@.tile_updates ==> final(memory).display()
            == old(memory).display(),
{
    cpu.increment_program_counter();
    cpu.clock_cycles(12);
    let val: u8 = memory.read_byte(cpu.program_counter())?;
    cpu.increment_program_counter();

    memory.write_byte(0xFF00 + (val as u16), cpu.a())
}

/// LD A,d8: two bytes, eight cycles; loads the byte after the opcode into
/// A.
pub open spec fn spec_ld_a_d8(m: MemoryView, c: Cpu) -> Outcome {
    let c1 = c.stepped(1, 8);
    match m.read_byte(c1.pc) {
        Err(fault) => failed(m, c1, fault),
        Ok(val) => done(m, Cpu { a: val, ..c1.advanced(1) }),
    }
}

/// 0x3E LD A,d8.
pub fn ld_a_d8<V: Video>(memory: &mut Memory<V>, cpu: &mut Cpu) -> (result: Result<(), Fault>)
    ensures
        ended(final(memory)@, *final(cpu), result) == spec_ld_a_d8(old(memory)@, *old(cpu)),
        *final(memory) == *old(memory),
{
    cpu.increment_program_counter();
    cpu.clock_cycles(8);

    let val: u8 = memory.read_byte(cpu.program_counter())?;
    cpu.increment_program_counter();

    cpu.set_a(val);
    Ok(())
}

/// LDH A,(a8): two bytes, twelve cycles; loads into A the hardware register
/// that the byte after the opcode selects.
pub open spec fn spec_ldh_a_ptr_a8(m: MemoryView, c: Cpu) -> Outcome {
    let c1 = c.stepped(1, 12);
    match m.read_byte(c1.pc) {
        Err(fault) => failed(m, c1, fault),
        Ok(offset) => match m.read_byte(high_page(offset)) {
            Err(fault) => failed(m, c1.advanced(1), fault),
            Ok(value) => done(m, Cpu { a: value, ..c1.advanced(1) }),
        },
    }
}

/// 0xF0 LDH A,(a8).
pub fn ldh_a_ptr_a8<V: Video>(memory: &mut Memory<V>, cpu: &mut Cpu) -> (result: Result<(), Fault>)
    ensures
        ended(final(memory)@, *final(cpu), result) == spec_ldh_a_ptr_a8(old(memory)@, *old(cpu)),
        *final(memory) == *old(memory),
{
    cpu.increment_program_counter();
    cpu.clock_cycles(12);
    let offset: u8 = memory.read_byte(cpu.program_counter())?;
    cpu.increment_program_counter();

    let address: u16 = 0xFF00 + (offset as u16);
    let value: u8 = memory.read_byte(address)?;
    cpu.set_a(value);
    Ok(())
}

/// LD SP,d16: three bytes, twelve cycles; loads the word after the
/// opcode into SP.
pub open spec fn spec_ld_sp_d16(m: MemoryView, c: Cpu) -> Outcome {
    let c1 = c.stepped(1, 12);
    match m.read_word(c1.pc) {
        Err(fault) => failed(m, c1, fault),
        Ok(val) => done(m, Cpu { sp: val, ..c1.advanced(2) }),
    }
}

/// 0x31 LD SP,d16.
pub fn ld_sp_d16<V: Video>(memory: &mut Memory<V>, cpu: &mut Cpu) -> (result: Result<(), Fault>)
    ensures
        ended(final(memory)@, *final(cpu), result) == spec_ld_sp_d16(old(memory)@, *old(cpu)),
        *final(memory) == *old(memory),
{
    cpu.increment_program_counter();
    cpu.clock_cycles(12);

    let val: u16 = memory.read_word(cpu.program_counter())?;
    cpu.increment_program_counter();
    cpu.increment_program_counter();

    cpu.set_sp(val);
    Ok(())
}

/// LD HL,d16: three bytes, twelve cycles; loads the word after the
/// opcode into HL.
pub open spec fn spec_ld_hl_d16(m: MemoryView, c: Cpu) -> Outcome {
    let c1 = c.stepped(1, 12);
    match m.read_word(c1.pc) {
        Err(fault) => failed(m, c1, fault),
        Ok(val) => done(m, c1.advanced(2).with_hl(val)),
    }
}

/// 0x21 LD HL,d16.
pub fn ld_hl_d16<V: Video>(memory: &mut Memory<V>, cpu: &mut Cpu) -> (result: Result<(), Fault>)
    ensures
        ended(final(memory)@, *final(cpu), result) == spec_ld_hl_d16(old(memory)@, *old(cpu)),
        *final(memory) == *old(memory),
{
    cpu.increment_program_counter();
    cpu.clock_cycles(12);

    let val: u16 = memory.read_word(cpu.program_counter())?;
    cpu.increment_program_counter();
    cpu.increment_program_counter();

    cpu.set_hl(val);
    Ok(())
}

/// LD (HL-),A: one byte, eight cycles; stores A where HL points and moves
/// HL down by one, whether or not the store faults.
pub open spec fn spec_ld_ptr_hl_minus_a(m: MemoryView, c: Cpu) -> Outcome {
    ended(
        m.written(c.spec_hl(), c.a),
        c.stepped(1, 8).with_hl(sub16(c.spec_hl(), 1)),
        m.write_byte(c.spec_hl(), c.a),
    )
}

/// 0x32 LD (HL-),A.
pub fn ld_ptr_hl_minus_a<V: Video>(memory: &mut Memory<V>, cpu: &mut Cpu) -> (result: Result<
    (),
    Fault,
>)
    ensures
        ended(final(memory)@, *final(cpu), result) == spec_ld_ptr_hl_minus_a(
            old(memory)@,
            *old(cpu),
        ),
        final(memory).banks() == old(memory).banks(),
        final(memory)@.tile_updates == old(memory)@.tile_updates ==> final(memory).display()
            == old(memory).display(),
{
    cpu.increment_program_counter();
    cpu.clock_cycles(8);
    let address: u16 = cpu.hl();
    let val: u8 = cpu.a();

    cpu.set_hl(address.wrapping_sub(1));
    memory.write_byte(address, val)
}

/// LD (C),A: one byte, eight cycles; stores A at the hardware register that
/// C selects.
pub open spec fn spec_ld_ptr_c_a(m: MemoryView, c: Cpu) -> Outcome {
    ended(m.written(high_page(c.c), c.a), c.stepped(1, 8), m.write_byte(high_page(c.c), c.a))
}

/// 0xE2 LD (C),A.
pub fn ld_ptr_c_a<V: Video>(memory: &mut Memory<V>, cpu: &mut Cpu) -> (result: Result<(), Fault>)
    ensures
        ended(final(memory)@, *final(cpu), result) == spec_ld_ptr_c_a(old(memory)@, *old(cpu)),
        final(memory).banks() == old(memory).banks(),
        final(memory)@.tile_updates == old(memory)@.tile_updates ==> final(memory).display()
            == old(memory).display(),
{
    cpu.increment_program_counter();
    cpu.clock_cycles(8);

    let c: u8 = cpu.c();
    let val: u8 = cpu.a();
    let addr: u16 = 0xFF00 + (c as u16);

    memory.write_byte(addr, val)
}

/// LD (HL),A: one byte, eight cycles; stores A where HL points.
pub open spec fn spec_ld_ptr_hl_a(m: MemoryView, c: Cpu) -> Outcome {
    ended(m.written(c.spec_hl(), c.a), c.stepped(1, 8), m.write_byte(c.spec_hl(), c.a))
}

/// 0x77 LD (HL),A.
pub fn ld_ptr_hl_a<V: Video>(memory: &mut Memory<V>, cpu: &mut Cpu) -> (result: Result<(), Fault>)
    ensures
        ended(final(memory)@, *final(cpu), result) == spec_ld_ptr_hl_a(old(memory)@, *old(cpu)),
        final(memory).banks() == old(memory).banks(),
        final(memory)@.tile_updates == old(memory)@.tile_updates ==> final(memory).display()
            == old(memory).display(),
{
    cpu.increment_program_counter();
    cpu.clock_cycles(8);

    let address: u16 = cpu.hl();
    let val: u8 = cpu.a();

    memory.write_byte(address, val)
}

/// LD DE,d16: three bytes, twelve cycles; loads the word after the
/// opcode into DE.
pub open spec fn spec_ld_de_d16(m: MemoryView, c: Cpu) -> Outcome {
    let c1 = c.stepped(1, 12);
    match m.read_word(c1.pc) {
        Err(fault) => failed(m, c1, fault),
        Ok(val) => done(m, c1.advanced(2).with_de(val)),
    }
}

/// 0x11 LD DE,d16.
pub fn ld_de_d16<V: Video>(memory: &mut Memory<V>, cpu: &mut Cpu) -> (result: Result<(), Fault>)
    ensures
        ended(final(memory)@, *final(cpu), result) == spec_ld_de_d16(old(memory)@, *old(cpu)),
        *final(memory) == *old(memory),
{
    cpu.increment_program_counter();
    cpu.clock_cycles(12);

    let val: u16 = memory.read_word(cpu.program_counter())?;
    cpu.increment_program_counter();
    cpu.increment_program_counter();

    cpu.set_de(val);
    Ok(())
}

/// LD A,(DE): one byte, eight cycles; loads the byte that DE points at
/// into A.
pub open spec fn spec_ld_a_ptr_de(m: MemoryView, c: Cpu) -> Outcome {
    let c1 = c.stepped(1, 8);
    match m.read_byte(c1.spec_de()) {
        Err(fault) => failed(m, c1, fault),
        Ok(val) => done(m, Cpu { a: val, ..c1 }),
    }
}

/// 0x1A LD A,(DE).
pub fn ld_a_ptr_de<V: Video>(memory: &mut Memory<V>, cpu: &mut Cpu) -> (result: Result<(), Fault>)
    ensures
        ended(final(memory)@, *final(cpu), result) == spec_ld_a_ptr_de(old(memory)@, *old(cpu)),
        *final(memory) == *old(memory),
{
    cpu.increment_program_counter();
    cpu.clock_cycles(8);

    let val: u8 = memory.read_byte(cpu.de())?;
    cpu.set_a(val);
    Ok(())
}

/// LD C,A: one byte, four cycles; copies A into C.
pub open spec fn spec_ld_c_a(m: MemoryView, c: Cpu) -> Outcome {
    done(m, Cpu { c: c.a, ..c.stepped(1, 4) })
}

/// 0x4F LD C,A.
pub fn ld_c_a<V: Video>(memory: &mut Memory<V>, cpu: &mut Cpu) -> (result: Result<(), Fault>)
    ensures
        ended(final(memory)@, *final(cpu), result) == spec_ld_c_a(old(memory)@, *old(cpu)),
        *final(memory) == *old(memory),
{
    cpu.increment_program_counter();
    cpu.clock_cycles(4);

    let val: u8 = cpu.a();
    cpu.set_c(val);
    Ok(())
}

/// LD B,d8: two bytes, eight cycles; loads the byte after the opcode into
/// B.
pub open spec fn spec_ld_b_d8(m: MemoryView, c: Cpu) -> Outcome {
    let c1 = c.stepped(1, 8);
    match m.read_byte(c1.pc) {
        Err(fault) => failed(m, c1, fault),
        Ok(val) => done(m, Cpu { b: val, ..c1.advanced(1) }),
    }
}

/// 0x06 LD B,d8.
pub fn ld_b_d8<V: Video>(memory: &mut Memory<V>, cpu: &mut Cpu) -> (result: Result<(), Fault>)
    ensures
        ended(final(memory)@, *final(cpu), result) == spec_ld_b_d8(old(memory)@, *old(cpu)),
        *final(memory) == *old(memory),
{
    cpu.increment_program_counter();
    cpu.clock_cycles(8);

    let val: u8 = memory.read_byte(cpu.program_counter())?;
    cpu.increment_program_counter();

    cpu.set_b(val);
    Ok(())
}

/// LD (HL+),A: one byte, eight cycles; stores A where HL points and then
/// moves HL up by one. A store that faults leaves HL where it was.
pub open spec fn spec_ld_ptr_hl_plus_a(m: MemoryView, c: Cpu) -> Outcome {
    let c1 = c.stepped(1, 8);
    match m.write_byte(c.spec_hl(), c.a) {
        Err(fault) => failed(m, c1, fault),
        Ok(_) => done(m.written(c.spec_hl(), c.a), c1.with_hl(add16(c.spec_hl(), 1))),
    }
}

/// 0x22 LD (HL+),A.
pub fn ld_ptr_hl_plus_a<V: Video>(memory: &mut Memory<V>, cpu: &mut Cpu) -> (result: Result<
    (),
    Fault,
>)
    ensures
        ended(final(memory)@, *final(cpu), result) == spec_ld_ptr_hl_plus_a(
            old(memory)@,
            *old(cpu),
        ),
        final(memory).banks() == old(memory).banks(),
        final(memory)@.tile_updates == old(memory)@.tile_updates ==> final(memory).display()
            == old(memory).display(),
{
    cpu.increment_program_counter();
    cpu.clock_cycles(8);

    let hl_address: u16 = cpu.hl();
    let a: u8 = cpu.a();

    memory.write_byte(hl_address, a)?;
    cpu.set_hl(hl_address.wrapping_add(1));
    Ok(())
}

/// LD A,E: one byte, four cycles; copies E into A.
pub open spec fn spec_ld_a_e(m: MemoryView, c: Cpu) -> Outcome {
    done(m, Cpu { a: c.e, ..c.stepped(1, 4) })
}

/// 0x7B LD A,E.
pub fn ld_a_e<V: Video>(memory: &mut Memory<V>, cpu: &mut Cpu) -> (result: Result<(), Fault>)
    ensures
        ended(final(memory)@, *final(cpu), result) == spec_ld_a_e(old(memory)@, *old(cpu)),
        *final(memory) == *old(memory),
{
    cpu.increment_program_counter();
    cpu.clock_cycles(4);

    let val: u8 = cpu.e();
    cpu.set_a(val);
    Ok(())
}

/// LD L,d8: two bytes, eight cycles; loads the byte after the opcode into
/// L.
pub open spec fn spec_ld_l_d8(m: MemoryView, c: Cpu) -> Outcome {
    let c1 = c.stepped(1, 8);
    match m.read_byte(c1.pc) {
        Err(fault) => failed(m, c1, fault),
        Ok(val) => done(m, Cpu { l: val, ..c1.advanced(1) }),
    }
}

/// 0x2E LD L,d8.
pub fn ld_l_d8<V: Video>(memory: &mut Memory<V>, cpu: &mut Cpu) -> (result: Result<(), Fault>)
    ensures
        ended(final(memory)@, *final(cpu), result) == spec_ld_l_d8(old(memory)@, *old(cpu)),
        *final(memory) == *old(memory),
{
    cpu.increment_program_counter();
    cpu.clock_cycles(8);

    let val: u8 = memory.read_byte(cpu.program_counter())?;
    cpu.increment_program_counter();

    cpu.set_l(val);
    Ok(())
}

/// LD H,A: one byte, eight cycles; copies A into H.
pub open spec fn spec_ld_h_a(m: MemoryView, c: Cpu) -> Outcome {
    done(m, Cpu { h: c.a, ..c.stepped(1, 8) })
}

/// 0x67 LD H,A.
pub fn ld_h_a<V: Video>(memory: &mut Memory<V>, cpu: &mut Cpu) -> (result: Result<(), Fault>)
    ensures
        ended(final(memory)@, *final(cpu), result) == spec_ld_h_a(old(memory)@, *old(cpu)),
        *final(memory) == *old(memory),
{
    cpu.increment_program_counter();
    cpu.clock_cycles(8);

    let val: u8 = cpu.a();
    cpu.set_h(val);
    Ok(())
}

/// LD D,A: one byte, four cycles; copies A into D.
pub open spec fn spec_ld_d_a(m: MemoryView, c: Cpu) -> Outcome {
    done(m, Cpu { d: c.a, ..c.stepped(1, 4) })
}

/// 0x57 LD D,A.
pub fn ld_d_a<V: Video>(memory: &mut Memory<V>, cpu: &mut Cpu) -> (result: Result<(), Fault>)
    ensures
        ended(final(memory)@, *final(cpu), result) == spec_ld_d_a(old(memory)@, *old(cpu)),
        *final(memory) == *old(memory),
{
    cpu.increment_program_counter();
    cpu.clock_cycles(4);

    let val: u8 = cpu.a();
    cpu.set_d(val);
    Ok(())
}

/// LD E,d8: two bytes, eight cycles; loads the byte after the opcode into
/// E.
pub open spec fn spec_ld_e_d8(m: MemoryView, c: Cpu) -> Outcome {
    let c1 = c.stepped(1, 8);
    match m.read_byte(c1.pc) {
        Err(fault) => failed(m, c1, fault),
        Ok(val) => done(m, Cpu { e: val, ..c1.advanced(1) }),
    }
}

/// 0x1E LD E,d8.
pub fn ld_e_d8<V: Video>(memory: &mut Memory<V>, cpu: &mut Cpu) -> (result: Result<(), Fault>)
    ensures
        ended(final(memory)@, *final(cpu), result) == spec_ld_e_d8(old(memory)@, *old(cpu)),
        *final(memory) == *old(memory),
{
    cpu.increment_program_counter();
    cpu.clock_cycles(8);

    let val: u8 = memory.read_byte(cpu.program_counter())?;
    cpu.increment_program_counter();

    cpu.set_e(val);
    Ok(())
}

/// LD A,H: one byte, four cycles; copies H into A.
pub open spec fn spec_ld_a_h(m: MemoryView, c: Cpu) -> Outcome {
    done(m, Cpu { a: c.h, ..c.stepped(1, 4) })
}

/// 0x7C LD A,H.
pub fn ld_a_h<V: Video>(memory: &mut Memory<V>, cpu: &mut Cpu) -> (result: Result<(), Fault>)
    ensures
        ended(final(memory)@, *final(cpu), result) == spec_ld_a_h(old(memory)@, *old(cpu)),
        *final(memory) == *old(memory),
{
    cpu.increment_program_counter();
    cpu.clock_cycles(4);

    let val: u8 = cpu.h();
    cpu.set_a(val);
    Ok(())
}

/// LD D,d8: two bytes, eight cycles; loads the byte after the opcode into
/// D.
pub open spec fn spec_ld_d_d8(m: MemoryView, c: Cpu) -> Outcome {
    let c1 = c.stepped(1, 8);
    match m.read_byte(c1.pc) {
        Err(fault) => failed(m, c1, fault),
        Ok(val) => done(m, Cpu { d: val, ..c1.advanced(1) }),
    }
}

/// 0x16 LD D,d8.
pub fn ld_d_d8<V: Video>(memory: &mut Memory<V>, cpu: &mut Cpu) -> (result: Result<(), Fault>)
    ensures
        ended(final(memory)@, *final(cpu), result) == spec_ld_d_d8(old(memory)@, *old(cpu)),
        *final(memory) == *old(memory),
{
    cpu.increment_program_counter();
    cpu.clock_cycles(8);

    let val: u8 = memory.read_byte(cpu.program_counter())?;
    cpu.increment_program_counter();

    cpu.set_d(val);
    Ok(())
}

/// LD A,L: one byte, four cycles; copies L into A.
pub open spec fn spec_ld_a_l(m: MemoryView, c: Cpu) -> Outcome {
    done(m, Cpu { a: c.l, ..c.stepped(1, 4) })
}

/// 0x7D LD A,L.
pub fn ld_a_l<V: Video>(memory: &mut Memory<V>, cpu: &mut Cpu) -> (result: Result<(), Fault>)
    ensures
        ended(final(memory)@, *final(cpu), result) == spec_ld_a_l(old(memory)@, *old(cpu)),
        *final(memory) == *old(memory),
{
    cpu.increment_program_counter();
    cpu.clock_cycles(4);

    let val: u8 = cpu.l();
    cpu.set_a(val);
    Ok(())
}

/// LD A,B: one byte, four cycles; copies B into A.
pub open spec fn spec_ld_a_b(m: MemoryView, c: Cpu) -> Outcome {
    done(m, Cpu { a: c.b, ..c.stepped(1, 4) })
}

/// 0x78 LD A,B.
pub fn ld_a_b<V: Video>(memory: &mut Memory<V>, cpu: &mut Cpu) -> (result: Result<(), Fault>)
    ensures
        ended(final(memory)@, *final(cpu), result) == spec_ld_a_b(old(memory)@, *old(cpu)),
        *final(memory) == *old(memory),
{
    cpu.increment_program_counter();
    cpu.clock_cycles(4);

    let val: u8 = cpu.b();
    cpu.set_a(val);
    Ok(())
}

/// LD B,A: one byte, four cycles; copies A into B.
pub open spec fn spec_ld_b_a(m: MemoryView, c: Cpu) -> Outcome {
    done(m, Cpu { b: c.a, ..c.stepped(1, 4) })
}

/// 0x47 LD B,A.
pub fn ld_b_a<V: Video>(memory: &mut Memory<V>, cpu: &mut Cpu) -> (result: Result<(), Fault>)
    ensures
        ended(final(memory)@, *final(cpu), result) == spec_ld_b_a(old(memory)@, *old(cpu)),
        *final(memory) == *old(memory),
{
    cpu.increment_program_counter();
    cpu.clock_cycles(4);

    let val: u8 = cpu.a();
    cpu.set_b(val);
    Ok(())
}

} // verus!
