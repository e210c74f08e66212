//! One turn of the execution loop: an instruction, the scanline timing, and
//! the frame budget; and the pacing of frames in real time.

use vstd::prelude::*;
use crate::cpu::Cpu;
use crate::fault::Fault;
use crate::memory::{Memory, MemoryView};
use crate::opcodes::{
    execute, lemma_boot_overlay_one_way, lemma_step_keeps_scanline, spec_execute,
};
use crate::video::Video;

verus! {

/// The time a frame may take at `fps` frames per second, in whole
/// milliseconds.
pub fn frame_millis(fps: u32) -> (millis: u64)
    requires
        fps > 0,
    ensures
        millis == 1000int / (fps as int),
{
    1000 / (fps as u64)
}

/// How long to wait, in nanoseconds, once a frame that may take `target`
/// nanoseconds has taken `spent`: the difference, and nothing where the
/// frame took as long as it may or longer.
pub fn pacing_delay(target: u64, spent: u64) -> (delay: Option<u64>)
    ensures
        delay == if target > spent {
            Some((target - spent) as u64)
        } else {
            None
        },
{
    if target > spent {
        Some(target - spent)
    } else {
        None
    }
}

/// Where a turn of the loop leaves the machine, and what it tells the
/// host: a fault, or whether a frame's worth of cycles has run.
pub struct Turn {
    pub memory: MemoryView,
    pub cpu: Cpu,
    pub result: Result<bool, Fault>,
}

/// One turn of the loop at `fps` frames per second. The instruction at the
/// program counter runs. If it faults, the turn ends there. Otherwise the
/// scanline timing sees the cycles that it has not consumed yet, and the
/// frame counter is tested: with the cycles of a frame counted, one frame's
/// cycles are taken off and the turn reports a frame.
pub open spec fn spec_step(m: MemoryView, c: Cpu, fps: u32) -> Turn
    recommends
        fps > 0,
{
    let ran = spec_execute(m, c);
    match ran.result {
        Err(fault) => Turn { memory: ran.memory, cpu: ran.cpu, result: Err(fault) },
        Ok(_) => {
            let elapsed = ran.cpu.cycles >= Cpu::frame_cycles(fps);
            Turn {
                memory: ran.memory.scanline_advanced(ran.cpu.scanline_cycles),
                cpu: Cpu {
                    scanline_cycles: ran.memory.scanline_remainder(ran.cpu.scanline_cycles),
                    cycles: if elapsed {
                        (ran.cpu.cycles - Cpu::frame_cycles(fps)) as u32
                    } else {
                        ran.cpu.cycles
                    },
                    ..ran.cpu
                },
                result: Ok(elapsed),
            }
        },
    }
}

/// Runs one turn of the loop and reports whether a frame has elapsed, so
/// that the host can render and pace itself.
pub fn step<V: Video>(memory: &mut Memory<V>, cpu: &mut Cpu, fps: u32) -> (result: Result<
    bool,
    Fault,
>)
    requires
        fps > 0,
    ensures
        (Turn { memory: final(memory)@, cpu: *final(cpu), result }) == spec_step(
            old(memory)@,
            *old(cpu),
            fps,
        ),
        final(memory).banks() == old(memory).banks(),
        final(memory)@.tile_updates == old(memory)@.tile_updates ==> final(memory).display()
            == old(memory).display(),
{
    execute(memory, cpu)?;

    let mut scanline_counter: u16 = cpu.scanline_cycles;
    memory.update_scanline(&mut scanline_counter);
    cpu.scanline_cycles = scanline_counter;

    Ok(cpu.frame_elapsed(fps))
}

/// The cycle counter that a turn leaves behind is never more than the one
/// the instruction left, and a reported frame has taken exactly one frame's
/// cycles off it.
pub proof fn lemma_frame_takes_one_budget(m: MemoryView, c: Cpu, fps: u32)
    requires
        fps > 0,
    ensures
        spec_step(m, c, fps).result == Ok::<bool, Fault>(true) ==> spec_step(m, c, fps).cpu.cycles
            + Cpu::frame_cycles(fps) == spec_execute(m, c).cpu.cycles,
        spec_step(m, c, fps).result == Ok::<bool, Fault>(false) ==> spec_step(m, c, fps).cpu.cycles
            == spec_execute(m, c).cpu.cycles && spec_step(m, c, fps).cpu.cycles
            < Cpu::frame_cycles(fps),
{
}

/// What every turn of the loop keeps: each address has its byte, the row
/// counter names a row that exists, and a boot overlay that is gone stays
/// gone.
pub proof fn lemma_turn_keeps_invariants(m: MemoryView, c: Cpu, fps: u32)
    requires
        fps > 0,
        m.wf(),
        m.row_in_range(),
    ensures
        spec_step(m, c, fps).memory.wf(),
        spec_step(m, c, fps).memory.row_in_range(),
        !m.boot_enabled ==> !spec_step(m, c, fps).memory.boot_enabled,
{
    let ran = spec_execute(m, c);
    lemma_boot_overlay_one_way(m, c);
    lemma_step_keeps_scanline(m, c);
    crate::memory::lemma_latch_and_row_kept(ran.memory, 0, 0, ran.cpu.scanline_cycles);
}

} // verus!
