//! The instructions: what each does to the registers and the address space,
//! and the dispatch that runs the one the program counter points at.

use vstd::prelude::*;
use crate::cpu::Cpu;
use crate::fault::Fault;
use crate::memory::{Memory, MemoryView, INTERRUPT_ADDRESS};
use crate::video::Video;

pub mod add;
pub mod compare;
pub mod extended;
pub mod jumps;
pub mod loads;
pub mod misc;
pub mod sub;
pub mod xor;

verus! {

/// Where an instruction leaves the machine: the address space, the
/// registers, and whether it ran to its end.
pub struct Outcome {
    pub memory: MemoryView,
    pub cpu: Cpu,
    pub result: Result<(), Fault>,
}

/// The outcome of an instruction that ended with `result`.
pub open spec fn ended(memory: MemoryView, cpu: Cpu, result: Result<(), Fault>) -> Outcome {
    Outcome { memory, cpu, result }
}

/// The outcome of an instruction that ran to its end.
pub open spec fn done(memory: MemoryView, cpu: Cpu) -> Outcome {
    Outcome { memory, cpu, result: Ok(()) }
}

/// The outcome of an instruction that stopped on `fault`.
pub open spec fn failed(memory: MemoryView, cpu: Cpu, fault: Fault) -> Outcome {
    Outcome { memory, cpu, result: Err(fault) }
}

/// NOP: one byte, four cycles, nothing else.
pub open spec fn spec_nop(m: MemoryView, c: Cpu) -> Outcome {
    done(m, c.stepped(1, 4))
}

/// 0x00 NOP.
pub fn nop<V: Video>(memory: &mut Memory<V>, cpu: &mut Cpu) -> (result: Result<(), Fault>)
    ensures
        ended(final(memory)@, *final(cpu), result) == spec_nop(old(memory)@, *old(cpu)),
        *final(memory) == *old(memory),
{
    cpu.clock_cycles(4);
    cpu.increment_program_counter();
    Ok(())
}

/// DI: one byte, four cycles; writes zero to the interrupt-enable byte.
pub open spec fn spec_di(m: MemoryView, c: Cpu) -> Outcome {
    ended(m.written(INTERRUPT_ADDRESS, 0), c.stepped(1, 4), m.write_byte(INTERRUPT_ADDRESS, 0))
}

/// 0xF3 DI.
pub fn di<V: Video>(memory: &mut Memory<V>, cpu: &mut Cpu) -> (result: Result<(), Fault>)
    ensures
        ended(final(memory)@, *final(cpu), result) == spec_di(old(memory)@, *old(cpu)),
        final(memory).banks() == old(memory).banks(),
        final(memory)@.tile_updates == old(memory)@.tile_updates ==> final(memory).display()
            == old(memory).display(),
{
    cpu.increment_program_counter();
    cpu.clock_cycles(4);

    memory.write_byte(INTERRUPT_ADDRESS, 0)
}

/// What the instruction that `opcode` selects does. Every one of the 256
/// bytes has an entry: those without a modelled instruction stop on a
/// fault that names the byte and where it was fetched, and change nothing.
/// A handler of this crate that the table does not name is not reached
/// from here: its opcode faults like any other without an entry.
pub open spec fn spec_dispatch(opcode: u8, m: MemoryView, c: Cpu) -> Outcome {
    match opcode {
        0x00 => spec_nop(m, c),
        0x03 => add::spec_inc_bc(m, c),
        0x06 => loads::spec_ld_b_d8(m, c),
        0x08 => loads::spec_ld_ptr_a16_sp(m, c),
        0x0B => sub::spec_dec_bc(m, c),
        0x0C => add::spec_inc_c(m, c),
        0x0D => sub::spec_dec_c(m, c),
        0x0E => loads::spec_ld_c_d8(m, c),
        0x11 => loads::spec_ld_de_d16(m, c),
        0x17 => misc::spec_rla(m, c),
        0x18 => jumps::spec_jr_r8(m, c),
        0x1A => loads::spec_ld_a_ptr_de(m, c),
        0x20 => jumps::spec_jr_nz_r8(m, c),
        0x21 => loads::spec_ld_hl_d16(m, c),
        0x28 => jumps::spec_jr_z_r8(m, c),
        0x31 => loads::spec_ld_sp_d16(m, c),
        0x32 => loads::spec_ld_ptr_hl_minus_a(m, c),
        0x3E => loads::spec_ld_a_d8(m, c),
        0x4F => loads::spec_ld_c_a(m, c),
        0x66 => loads::spec_ld_h_ptr_hl(m, c),
        0x73 => loads::spec_ld_ptr_hl_e(m, c),
        0x77 => loads::spec_ld_ptr_hl_a(m, c),
        0x83 => add::spec_add_a_e(m, c),
        0x88 => add::spec_adc_a_b(m, c),
        0x89 => add::spec_adc_a_c(m, c),
        0xAF => xor::spec_xor_a(m, c),
        0xC1 => misc::spec_pop_bc(m, c),
        0xC3 => jumps::spec_jp_a16(m, c),
        0xC5 => misc::spec_push_bc(m, c),
        0xCB => extended::spec_execute(m, c),
        0xCC => jumps::spec_call_z_a16(m, c),
        0xCD => jumps::spec_call_a16(m, c),
        0xCE => add::spec_adc_a_d8(m, c),
        0xE0 => loads::spec_ldh_ptr_a8_a(m, c),
        0xE2 => loads::spec_ld_ptr_c_a(m, c),
        0xEA => loads::spec_ld_ptr_a16_a(m, c),
        0xF0 => loads::spec_ldh_a_ptr_a8(m, c),
        0xF3 => spec_di(m, c),
        0xFE => compare::spec_cp_d8(m, c),
        0xFF => jumps::spec_rst_38(m, c),
        _ => failed(m, c, Fault::UnimplementedOpcode { opcode, pc: c.pc }),
    }
}

/// Runs the instruction that `opcode` selects, the program counter still
/// pointing at the opcode.
pub fn dispatch<V: Video>(opcode: u8, memory: &mut Memory<V>, cpu: &mut Cpu) -> (result: Result<
    (),
    Fault,
>)
    ensures
        ended(final(memory)@, *final(cpu), result) == spec_dispatch(
            opcode,
            old(memory)@,
            *old(cpu),
        ),
        final(memory).banks() == old(memory).banks(),
        final(memory)@.tile_updates == old(memory)@.tile_updates ==> final(memory).display()
            == old(memory).display(),
{
    match opcode {
        0x00 => nop(memory, cpu),
        0x03 => add::inc_bc(memory, cpu),
        0x06 => loads::ld_b_d8(memory, cpu),
        0x08 => loads::ld_ptr_a16_sp(memory, cpu),
        0x0B => sub::dec_bc(memory, cpu),
        0x0C => add::inc_c(memory, cpu),
        0x0D => sub::dec_c(memory, cpu),
        0x0E => loads::ld_c_d8(memory, cpu),
        0x11 => loads::ld_de_d16(memory, cpu),
        0x17 => misc::rla(memory, cpu),
        0x18 => jumps::jr_r8(memory, cpu),
        0x1A => loads::ld_a_ptr_de(memory, cpu),
        0x20 => jumps::jr_nz_r8(memory, cpu),
        0x21 => loads::ld_hl_d16(memory, cpu),
        0x28 => jumps::jr_z_r8(memory, cpu),
        0x31 => loads::ld_sp_d16(memory, cpu),
        0x32 => loads::ld_ptr_hl_minus_a(memory, cpu),
        0x3E => loads::ld_a_d8(memory, cpu),
        0x4F => loads::ld_c_a(memory, cpu),
        0x66 => loads::ld_h_ptr_hl(memory, cpu),
        0x73 => loads::ld_ptr_hl_e(memory, cpu),
        0x77 => loads::ld_ptr_hl_a(memory, cpu),
        0x83 => add::add_a_e(memory, cpu),
        0x88 => add::adc_a_b(memory, cpu),
        0x89 => add::adc_a_c(memory, cpu),
        0xAF => xor::xor_a(memory, cpu),
        0xC1 => misc::pop_bc(memory, cpu),
        0xC3 => jumps::jp_a16(memory, cpu),
        0xC5 => misc::push_bc(memory, cpu),
        0xCB => extended::execute(memory, cpu),
        0xCC => jumps::call_z_a16(memory, cpu),
        0xCD => jumps::call_a16(memory, cpu),
        0xCE => add::adc_a_d8(memory, cpu),
        0xE0 => loads::ldh_ptr_a8_a(memory, cpu),
        0xE2 => loads::ld_ptr_c_a(memory, cpu),
        0xEA => loads::ld_ptr_a16_a(memory, cpu),
        0xF0 => loads::ldh_a_ptr_a8(memory, cpu),
        0xF3 => di(memory, cpu),
        0xFE => compare::cp_d8(memory, cpu),
        0xFF => jumps::rst_38(memory, cpu),
        _ => Err(Fault::UnimplementedOpcode { opcode, pc: cpu.program_counter() }),
    }
}

/// Where the program counter stands when the boot overlay has run to its
/// end.
pub const BOOT_END: u16 = 0x0100;

/// One step of the machine: the byte at the program counter is fetched and
/// its instruction run. An instruction that runs to its end with the
/// program counter at the end of the boot overlay takes the overlay away.
pub open spec fn spec_execute(m: MemoryView, c: Cpu) -> Outcome {
    match m.read_byte(c.pc) {
        Err(fault) => failed(m, c, fault),
        Ok(opcode) => {
            let after = spec_dispatch(opcode, m, c);
            if after.result.is_ok() && after.cpu.pc == BOOT_END {
                Outcome { memory: MemoryView { boot_enabled: false, ..after.memory }, ..after }
            } else {
                after
            }
        },
    }
}

/// Fetches the opcode at the program counter and runs its instruction.
pub fn execute<V: Video>(memory: &mut Memory<V>, cpu: &mut Cpu) -> (result: Result<(), Fault>)
    ensures
        ended(final(memory)@, *final(cpu), result) == spec_execute(old(memory)@, *old(cpu)),
        final(memory).banks() == old(memory).banks(),
        final(memory)@.tile_updates == old(memory)@.tile_updates ==> final(memory).display()
            == old(memory).display(),
{
    let instruction: u8 = memory.read_byte(cpu.program_counter())?;

    dispatch(instruction, memory, cpu)?;

    if cpu.program_counter() == BOOT_END {
        memory.disable_bios();
    }
    Ok(())
}

/// The boot overlay is a one-way latch: once it is gone no step brings it
/// back. A step takes it away exactly when it ran to its end and left the
/// program counter at the end of the overlay.
pub proof fn lemma_boot_overlay_one_way(m: MemoryView, c: Cpu)
    ensures
        !m.boot_enabled ==> !spec_execute(m, c).memory.boot_enabled,
        m.boot_enabled ==> (spec_execute(m, c).memory.boot_enabled <==> !(spec_execute(
            m,
            c,
        ).result.is_ok() && spec_execute(m, c).cpu.pc == BOOT_END)),
{
    match m.read_byte(c.pc) {
        Err(_) => {},
        Ok(opcode) => {
            lemma_dispatch_keeps_latch(opcode, m, c);
        },
    }
}

/// No instruction touches the boot overlay's latch.
pub proof fn lemma_dispatch_keeps_latch(opcode: u8, m: MemoryView, c: Cpu)
    ensures
        spec_dispatch(opcode, m, c).memory.boot_enabled == m.boot_enabled,
{
}

/// Whether `after` has the scanline timing of `before`: the phase and the
/// row counter.
pub open spec fn same_scanline(before: MemoryView, after: MemoryView) -> bool {
    &&& after.wf()
    &&& after.scanline == before.scanline
    &&& after.scanline_y() == before.scanline_y()
}

/// No write of a byte or of a word touches the scanline timing.
pub proof fn lemma_write_keeps_scanline(m: MemoryView, address: u16, byte: u8, word: u16)
    requires
        m.wf(),
    ensures
        same_scanline(m, m.written(address, byte)),
        same_scanline(m, m.word_written(address, word)),
{
    let low = crate::cpu::low_byte(word);
    let high = crate::cpu::high_byte(word);
    crate::memory::lemma_latch_and_row_kept(m, address, byte, 0);
    crate::memory::lemma_latch_and_row_kept(m, address, low, 0);
    crate::memory::lemma_latch_and_row_kept(
        m.written(address, low),
        crate::cpu::add16(address, 1),
        high,
        0,
    );
}

/// No instruction touches the scanline timing.
pub proof fn lemma_dispatch_keeps_scanline(opcode: u8, m: MemoryView, c: Cpu)
    requires
        m.wf(),
    ensures
        same_scanline(m, spec_dispatch(opcode, m, c).memory),
{
    let after = spec_dispatch(opcode, m, c).memory;
    assert(after == m || (exists|address: u16, byte: u8| after == m.written(address, byte)) || (
    exists|address: u16, word: u16| after == m.word_written(address, word))) by {
        lemma_dispatch_writes_at_most_once(opcode, m, c);
    }
    if after == m {
    } else if exists|address: u16, byte: u8| after == m.written(address, byte) {
        let (address, byte) = choose|address: u16, byte: u8| after == m.written(address, byte);
        lemma_write_keeps_scanline(m, address, byte, 0);
    } else {
        let (address, word) = choose|address: u16, word: u16|
            after == m.word_written(address, word);
        lemma_write_keeps_scanline(m, address, 0, word);
    }
}

/// An instruction leaves the address space as it was, or as one write of
/// a byte or of a word leaves it.
pub proof fn lemma_dispatch_writes_at_most_once(opcode: u8, m: MemoryView, c: Cpu)
    ensures
        ({
            let after = spec_dispatch(opcode, m, c).memory;
            ||| after == m
            ||| exists|address: u16, byte: u8| after == m.written(address, byte)
            ||| exists|address: u16, word: u16| after == m.word_written(address, word)
        }),
{
    let after = spec_dispatch(opcode, m, c).memory;
    let c1 = c.advanced(1);
    if opcode == 0x08 {
        if let Ok(address) = m.read_word(c1.pc) {
            assert(after == m.word_written(address, c.sp));
        }
    } else if opcode == 0x32 || opcode == 0x77 {
        assert(after == m.written(c.spec_hl(), c.a));
    } else if opcode == 0x73 {
        assert(after == m.written(c.spec_hl(), c.e));
    } else if opcode == 0xC5 {
        assert(after == m.word_written(c.sp, c.spec_bc()));
    } else if opcode == 0xCC {
        if c.flags.zero {
            assert(after == m.word_written(c.sp, c1.pc));
        }
    } else if opcode == 0xCD {
        if let Ok(address) = m.read_word(c1.pc) {
            assert(after == m.word_written(c.sp, c1.advanced(1).pc));
        }
    } else if opcode == 0xE0 {
        if let Ok(offset) = m.read_byte(c1.pc) {
            assert(after == m.written(loads::high_page(offset), c.a));
        }
    } else if opcode == 0xE2 {
        assert(after == m.written(loads::high_page(c.c), c.a));
    } else if opcode == 0xEA {
        if let Ok(address) = m.read_word(c1.pc) {
            assert(after == m.written(address, c.a));
        }
    } else if opcode == 0xF3 {
        assert(after == m.written(INTERRUPT_ADDRESS, 0));
    } else if opcode == 0xFF {
        assert(after == m.word_written(c.sp, c1.pc));
    } else {
        assert(after == m);
    }
}

/// No step touches the scanline timing: the phase and the row counter are
/// after a step what they were before it.
pub proof fn lemma_step_keeps_scanline(m: MemoryView, c: Cpu)
    requires
        m.wf(),
    ensures
        same_scanline(m, spec_execute(m, c).memory),
{
    match m.read_byte(c.pc) {
        Err(_) => {},
        Ok(opcode) => {
            lemma_dispatch_keeps_scanline(opcode, m, c);
        },
    }
}

} // verus!
