//! The 64KB address space: cartridge banks under a boot overlay, plain RAM,
//! tile data whose writes reach the display, hardware registers, and the
//! scanline timing that steps through the phases of a display row.

use vstd::prelude::*;
use crate::cpu::{add16, bit_at, high_byte, low_byte, pack, bytes_to_word, word_to_bytes};
use crate::fault::Fault;
use crate::registers::{
    report, spec_report, RegisterReport, REGISTER_SCANLINE_Y, REGISTER_SCROLL_POSITION_Y,
};
use crate::video::{Color, TileUpdate, Video};

verus! {

/// The interrupt-enable byte.
pub const INTERRUPT_ADDRESS: u16 = 0xFFFF;

/// The boot overlay: the program mapped over the first 256 addresses at
/// power-on.
pub const BIOS: [u8; 256] = [
    0x31, 0xFE, 0xFF, 0xAF, 0x21, 0xFF, 0x9F, 0x32, 0xCB, 0x7C, 0x20, 0xFB, 0x21, 0x26, 0xFF, 0x0E,
    0x11, 0x3E, 0x80, 0x32, 0xE2, 0x0C, 0x3E, 0xF3, 0xE2, 0x32, 0x3E, 0x77, 0x77, 0x3E, 0xFC, 0xE0,
    0x47, 0x11, 0x04, 0x01, 0x21, 0x10, 0x80, 0x1A, 0xCD, 0x95, 0x00, 0xCD, 0x96, 0x00, 0x13, 0x7B,
    0xFE, 0x34, 0x20, 0xF3, 0x11, 0xD8, 0x00, 0x06, 0x08, 0x1A, 0x13, 0x22, 0x23, 0x05, 0x20, 0xF9,
    0x3E, 0x19, 0xEA, 0x10, 0x99, 0x21, 0x2F, 0x99, 0x0E, 0x0C, 0x3D, 0x28, 0x08, 0x32, 0x0D, 0x20,
    0xF9, 0x2E, 0x0F, 0x18, 0xF3, 0x67, 0x3E, 0x64, 0x57, 0xE0, 0x42, 0x3E, 0x91, 0xE0, 0x40, 0x04,
    0x1E, 0x02, 0x0E, 0x0C, 0xF0, 0x44, 0xFE, 0x90, 0x20, 0xFA, 0x0D, 0x20, 0xF7, 0x1D, 0x20, 0xF2,
    0x0E, 0x13, 0x24, 0x7C, 0x1E, 0x83, 0xFE, 0x62, 0x28, 0x06, 0x1E, 0xC1, 0xFE, 0x64, 0x20, 0x06,
    0x7B, 0xE2, 0x0C, 0x3E, 0x87, 0xF2, 0xF0, 0x42, 0x90, 0xE0, 0x42, 0x15, 0x20, 0xD2, 0x05, 0x20,
    0x4F, 0x16, 0x20, 0x18, 0xCB, 0x4F, 0x06, 0x04, 0xC5, 0xCB, 0x11, 0x17, 0xC1, 0xCB, 0x11, 0x17,
    0x05, 0x20, 0xF5, 0x22, 0x23, 0x22, 0x23, 0xC9, 0xCE, 0xED, 0x66, 0x66, 0xCC, 0x0D, 0x00, 0x0B,
    0x03, 0x73, 0x00, 0x83, 0x00, 0x0C, 0x00, 0x0D, 0x00, 0x08, 0x11, 0x1F, 0x88, 0x89, 0x00, 0x0E,
    0xDC, 0xCC, 0x6E, 0xE6, 0xDD, 0xDD, 0xD9, 0x99, 0xBB, 0xBB, 0x67, 0x63, 0x6E, 0x0E, 0xEC, 0xCC,
    0xDD, 0xDC, 0x99, 0x9F, 0xBB, 0xB9, 0x33, 0x3E, 0x3c, 0x42, 0xB9, 0xA5, 0xB9, 0xA5, 0x42, 0x4C,
    0x21, 0x04, 0x01, 0x11, 0xA8, 0x00, 0x1A, 0x13, 0xBE, 0x20, 0xFE, 0x23, 0x7D, 0xFE, 0x34, 0x20,
    0xF5, 0x06, 0x19, 0x78, 0x86, 0x23, 0x05, 0x20, 0xFB, 0x86, 0x20, 0xFE, 0x3E, 0x01, 0xE0, 0x50,
];

/// First address of the boot overlay.
pub const BIOS_AREA_START: usize = 0x0000;

/// Last address of the boot overlay.
pub const BIOS_AREA_END: usize = 0x00FF;

/// First address of the switchable cartridge bank.
pub const CARTRIDGE_ROM_SWITCHABLE_START: usize = 0x4000;

/// Last address of the switchable cartridge bank.
pub const CARTRIDGE_ROM_SWITCHABLE_END: usize = 0x7FFF;

/// First address of video RAM.
pub const VIDEO_RAM_START: u16 = 0x8000;

/// Last address of video RAM.
pub const VIDEO_RAM_END: u16 = 0x9FFF;

/// First address of the hardware registers.
pub const HARDWARE_IO_REGISTERS_START: u16 = 0xFF00;

/// Last address of the hardware registers.
pub const HARDWARE_IO_REGISTERS_END: u16 = 0xFF7F;

pub const CARTRIDGE_ROM_FIXED_BANK_SIZE: usize = 0x4000;

pub const CARTRIDGE_ROM_SWITCHABLE_BANK_SIZE: usize = 0x4000;

/// Cycles that the OAM search of a row takes.
pub const OAM_CYCLES: u16 = 80;

/// Cycles that the pixel transfer of a row takes.
pub const VRAM_CYCLES: u16 = 172;

/// Cycles that the horizontal blank of a row takes.
pub const HORIZONTAL_BLANK_CYCLES: u16 = 204;

/// Number of scanline rows; the row counter wraps to 0 when it gets here.
pub const SCANLINE_ROWS: u8 = 154;

/// The phase of the display controller within one row.
#[derive(PartialEq, Eq, Hash, Debug, Copy, Clone, Structural)]
pub enum ScanLine {
    Oam,
    Vram,
    HorizontalBlank,
}

impl ScanLine {
    /// Cycles that this phase takes before the next one begins.
    pub open spec fn threshold(self) -> u16 {
        match self {
            ScanLine::Oam => OAM_CYCLES,
            ScanLine::Vram => VRAM_CYCLES,
            ScanLine::HorizontalBlank => HORIZONTAL_BLANK_CYCLES,
        }
    }

    /// The phase that follows this one.
    pub open spec fn next(self) -> ScanLine {
        match self {
            ScanLine::Oam => ScanLine::Vram,
            ScanLine::Vram => ScanLine::HorizontalBlank,
            ScanLine::HorizontalBlank => ScanLine::Oam,
        }
    }
}

/// The row that follows row `y`: one more, and 0 after the last row.
pub open spec fn next_row(y: u8) -> u8 {
    if y + 1 >= SCANLINE_ROWS {
        0
    } else {
        (y + 1) as u8
    }
}

/// Whether `address` lies among the hardware registers.
pub open spec fn is_io_register(address: u16) -> bool {
    HARDWARE_IO_REGISTERS_START <= address <= HARDWARE_IO_REGISTERS_END
}

/// Whether `address` lies in video RAM.
pub open spec fn is_video_ram(address: u16) -> bool {
    VIDEO_RAM_START <= address <= VIDEO_RAM_END
}

/// The eight pixels of the tile row that `address` belongs to, leftmost
/// first, given the row's two bytes: `byte1` holds the low bit of each pixel,
/// `byte2` the high bit, and bit 7 is the leftmost pixel.
pub open spec fn tile_row(address: u16, byte1: u8, byte2: u8) -> Seq<TileUpdate> {
    Seq::new(
        8,
        |k: int|
            TileUpdate {
                tile_index: ((address - VIDEO_RAM_START) / 16) as u16,
                row_index: ((address % 16) / 2) as u16,
                pixel_index: k as usize,
                color: Color::from_planes(
                    bit_at(byte1, (7 - k) as u8),
                    bit_at(byte2, (7 - k) as u8),
                ),
            },
    )
}

/// The 65,536 bytes at power-on: the fixed bank from 0x0000, the switched
/// bank from 0x4000, zero from 0x8000 on.
pub open spec fn initial_bytes(switched_bank: Seq<u8>, fixed_bank: Seq<u8>) -> Seq<u8> {
    Seq::new(
        0x10000,
        |i: int|
            if i < 0x4000 {
                fixed_bank[i]
            } else if i < 0x8000 {
                switched_bank[i - 0x4000]
            } else {
                0u8
            },
    )
}

/// The bank mapped from 0x4000: the first of `banks`, or zeros where there
/// is none.
pub open spec fn switched_bank(banks: Seq<[u8; CARTRIDGE_ROM_SWITCHABLE_BANK_SIZE]>) -> Seq<u8> {
    if banks.len() == 0 {
        Seq::new(CARTRIDGE_ROM_SWITCHABLE_BANK_SIZE as nat, |i: int| 0u8)
    } else {
        banks[0]@
    }
}

/// At power-on every address has its byte, everything from video RAM up is
/// zero, and so the display controller is on row 0.
pub proof fn lemma_initial_bytes(switched_bank: Seq<u8>, fixed_bank: Seq<u8>, address: int)
    requires
        0x8000 <= address < 0x10000,
    ensures
        initial_bytes(switched_bank, fixed_bank).len() == 0x10000,
        initial_bytes(switched_bank, fixed_bank)[address] == 0,
        initial_bytes(switched_bank, fixed_bank)[REGISTER_SCANLINE_Y as int] == 0,
{
}

/// The flat byte array behind the address space.
pub struct MemMap(pub [u8; 0x10000]);

impl MemMap {
    /// Lays the two cartridge banks into an otherwise zeroed array.
    pub fn new(
        switched_bank: &[u8; CARTRIDGE_ROM_SWITCHABLE_BANK_SIZE],
        fixed_bank: &[u8; CARTRIDGE_ROM_FIXED_BANK_SIZE],
    ) -> (mem: Self)
        ensures
            mem.0@ == initial_bytes(switched_bank@, fixed_bank@),
    {
        let mut bytes = [0u8; 0x10000];
        let mut i: usize = 0;
        while i < 0x4000
            invariant
                i <= 0x4000,
                forall|j: int| 0 <= j < i ==> bytes@[j] == fixed_bank@[j],
                forall|j: int| 0 <= j < i ==> bytes@[0x4000 + j] == switched_bank@[j],
                forall|j: int| i <= j < 0x4000 ==> bytes@[j] == 0,
                forall|j: int| 0x4000 + i <= j < 0x10000 ==> bytes@[j] == 0,
            decreases 0x4000 - i,
        {
            bytes[i] = fixed_bank[i];
            bytes[0x4000 + i] = switched_bank[i];
            i += 1;
        }
        assert(bytes@ =~= initial_bytes(switched_bank@, fixed_bank@));
        MemMap(bytes)
    }
}

/// The address space as the contracts see it.
pub struct MemoryView {
    /// The 65,536 stored bytes, by address.
    pub bytes: Seq<u8>,
    /// Whether the boot overlay still covers the first 256 addresses.
    pub boot_enabled: bool,
    /// The phase of the current display row.
    pub scanline: ScanLine,
    /// Every tile pixel the display has been told of, oldest first.
    pub tile_updates: Seq<TileUpdate>,
    /// The register writes that have not been collected yet, oldest first.
    pub register_reports: Seq<RegisterReport>,
}

impl MemoryView {
    /// Every address has a byte.
    pub open spec fn wf(self) -> bool {
        self.bytes.len() == 0x10000
    }

    /// What reading the byte at `address` gives: the overlay's byte where the
    /// overlay covers the address, a fault for a hardware register other than
    /// scroll-Y and scanline-Y, and the stored byte everywhere else.
    pub open spec fn read_byte(self, address: u16) -> Result<u8, Fault> {
        if self.boot_enabled && address < 0x0100 {
            Ok(BIOS@[address as int])
        } else if is_io_register(address) && address != REGISTER_SCROLL_POSITION_Y && address
            != REGISTER_SCANLINE_Y {
            Err(Fault::UnimplementedRead { address, value: self.bytes[address as int] })
        } else {
            Ok(self.bytes[address as int])
        }
    }

    /// What reading a word at `address` gives: the byte at `address` is the
    /// lower half, the byte at the next address the upper half.
    pub open spec fn read_word(self, address: u16) -> Result<u16, Fault> {
        match self.read_byte(address) {
            Err(fault) => Err(fault),
            Ok(low) => match self.read_byte(add16(address, 1)) {
                Err(fault) => Err(fault),
                Ok(high) => Ok(pack(high, low)),
            },
        }
    }

    /// What writing `value` to `address` returns: a fault under the boot
    /// overlay and at a hardware register without a modelled write.
    pub open spec fn write_byte(self, address: u16, value: u8) -> Result<(), Fault> {
        if self.boot_enabled && address < 0x0100 {
            Err(Fault::BootOverlayWrite { address, value })
        } else if is_io_register(address) && spec_report(address, value).is_none() {
            Err(Fault::UnimplementedWrite { address, value })
        } else {
            Ok(())
        }
    }

    /// The address space after `value` has been written to `address`. A write
    /// that faults changes nothing. Any other stores the byte; at a hardware
    /// register it adds a report, and in video RAM it sends the display the
    /// eight pixels of the tile row, decoded from the row's two bytes as they
    /// are after the store.
    pub open spec fn written(self, address: u16, value: u8) -> MemoryView {
        if self.write_byte(address, value).is_err() {
            self
        } else {
            let bytes = self.bytes.update(address as int, value);
            let even = address - address % 2;
            MemoryView {
                bytes,
                register_reports: if is_io_register(address) {
                    self.register_reports.push(spec_report(address, value).unwrap())
                } else {
                    self.register_reports
                },
                tile_updates: if is_video_ram(address) {
                    self.tile_updates + tile_row(address, bytes[even], bytes[even + 1])
                } else {
                    self.tile_updates
                },
                ..self
            }
        }
    }

    /// What writing the word `value` at `address` returns: the fault of the
    /// lower byte's write, else that of the upper byte's.
    pub open spec fn write_word(self, address: u16, value: u16) -> Result<(), Fault> {
        match self.write_byte(address, low_byte(value)) {
            Err(fault) => Err(fault),
            Ok(_) => self.written(address, low_byte(value)).write_byte(
                add16(address, 1),
                high_byte(value),
            ),
        }
    }

    /// The address space after the word `value` has been written at
    /// `address`: the lower byte at `address`, then, unless that faulted,
    /// the upper byte at the next address.
    pub open spec fn word_written(self, address: u16, value: u16) -> MemoryView {
        if self.write_byte(address, low_byte(value)).is_err() {
            self
        } else {
            self.written(address, low_byte(value)).written(add16(address, 1), high_byte(value))
        }
    }

    /// The row that the display controller is on.
    pub open spec fn scanline_y(self) -> u8 {
        self.bytes[REGISTER_SCANLINE_Y as int]
    }

    /// Whether the row counter names one of the rows that exist.
    pub open spec fn row_in_range(self) -> bool {
        self.scanline_y() < SCANLINE_ROWS
    }

    /// Whether `counter` cycles are enough to end the current phase.
    pub open spec fn phase_ends(self, counter: u16) -> bool {
        counter >= self.scanline.threshold()
    }

    /// The address space after the scanline timing has seen `counter`
    /// cycles: where the phase ends the next one begins, and the end of the
    /// horizontal blank moves the row counter on.
    pub open spec fn scanline_advanced(self, counter: u16) -> MemoryView {
        if !self.phase_ends(counter) {
            self
        } else {
            MemoryView {
                scanline: self.scanline.next(),
                bytes: if self.scanline == ScanLine::HorizontalBlank {
                    self.bytes.update(REGISTER_SCANLINE_Y as int, next_row(self.scanline_y()))
                } else {
                    self.bytes
                },
                ..self
            }
        }
    }

    /// The cycles left over once the scanline timing has seen `counter`
    /// cycles: what the ended phase took is subtracted.
    pub open spec fn scanline_remainder(self, counter: u16) -> u16 {
        if self.phase_ends(counter) {
            (counter - self.scanline.threshold()) as u16
        } else {
            counter
        }
    }
}

/// A word written is the word read back: if writing `value` at `address`
/// succeeds, reading the word at `address` afterwards gives `value`. The
/// hardware registers are left out: those that take writes fault on reads.
pub proof fn lemma_word_written_then_read(memory: MemoryView, address: u16, value: u16)
    requires
        memory.wf(),
        memory.write_word(address, value).is_ok(),
        !is_io_register(address),
    ensures
        memory.word_written(address, value).read_word(address) == Ok::<u16, Fault>(value),
{
    let low = low_byte(value);
    let high = high_byte(value);
    let next = add16(address, 1);
    let first = memory.written(address, low);
    let second = first.written(next, high);
    assert(next != address);
    assert(first.bytes[address as int] == low);
    assert(second.bytes[address as int] == low);
    assert(second.bytes[next as int] == high);
    assert(pack(high, low) == value);
}

/// No write and no step of the scanline timing touches the boot overlay's
/// latch, no write moves the row counter, and the scanline timing keeps the
/// row counter within the rows that exist.
pub proof fn lemma_latch_and_row_kept(memory: MemoryView, address: u16, value: u8, counter: u16)
    requires
        memory.wf(),
    ensures
        memory.written(address, value).wf(),
        memory.scanline_advanced(counter).wf(),
        memory.written(address, value).boot_enabled == memory.boot_enabled,
        memory.scanline_advanced(counter).boot_enabled == memory.boot_enabled,
        memory.written(address, value).scanline_y() == memory.scanline_y(),
        memory.row_in_range() ==> memory.scanline_advanced(counter).row_in_range(),
        memory.written(address, value).scanline == memory.scanline,
{
}

/// A write into tile data tells the display of exactly eight pixels, all of
/// the tile and the row that the address belongs to, numbered from the
/// left, each colored by its bit of the two planes.
pub proof fn lemma_tile_row_shape(address: u16, byte1: u8, byte2: u8, k: int)
    requires
        is_video_ram(address),
        0 <= k < 8,
    ensures
        tile_row(address, byte1, byte2).len() == 8,
        tile_row(address, byte1, byte2)[k].tile_index == (address - VIDEO_RAM_START) / 16,
        tile_row(address, byte1, byte2)[k].tile_index < crate::video::TILE_COUNT,
        tile_row(address, byte1, byte2)[k].row_index == (address % 16) / 2,
        tile_row(address, byte1, byte2)[k].row_index < 8,
        tile_row(address, byte1, byte2)[k].pixel_index == k,
        tile_row(address, byte1, byte2)[k].color == Color::from_planes(
            bit_at(byte1, (7 - k) as u8),
            bit_at(byte2, (7 - k) as u8),
        ),
        tile_row(address, byte1, byte2) == tile_row(
            (address - address % 2) as u16,
            byte1,
            byte2,
        ),
{
    let even = (address - address % 2) as u16;
    assert((even - VIDEO_RAM_START) / 16 == (address - VIDEO_RAM_START) / 16);
    assert((even % 16) / 2 == (address % 16) / 2);
    assert(tile_row(address, byte1, byte2) =~= tile_row(even, byte1, byte2));
}

/// The scanline timing never loses a cycle: what a phase takes plus what is
/// left over is what was fed in.
pub proof fn lemma_scanline_cycles_conserved(memory: MemoryView, counter: u16)
    ensures
        memory.phase_ends(counter) ==> memory.scanline_remainder(counter)
            + memory.scanline.threshold() == counter,
        !memory.phase_ends(counter) ==> memory.scanline_remainder(counter) == counter
            && memory.scanline_advanced(counter) == memory,
        memory.phase_ends(counter) ==> memory.scanline_advanced(counter).scanline
            == memory.scanline.next(),
{
}

/// The address space, with the display that its tile data is shown on.
pub struct Memory<'a, V: Video> {
    map: MemMap,
    switchable_banks: &'a [[u8; CARTRIDGE_ROM_SWITCHABLE_BANK_SIZE]],
    bios_loaded: bool,
    pub video: V,
    scanline: ScanLine,
    register_reports: Vec<RegisterReport>,
}

impl<'a, V: Video> View for Memory<'a, V> {
    type V = MemoryView;

    closed spec fn view(&self) -> MemoryView {
        MemoryView {
            bytes: self.map.0@,
            boot_enabled: self.bios_loaded,
            scanline: self.scanline,
            tile_updates: self.video.tile_updates(),
            register_reports: self.register_reports@,
        }
    }
}

impl<'a, V: Video> Memory<'a, V> {
    /// The display that tile data is sent to.
    pub closed spec fn display(&self) -> V {
        self.video
    }

    /// The view always holds a byte for every address.
    pub proof fn lemma_view_wf(&self)
        ensures
            self@.wf(),
    {
    }

    /// The cartridge banks that can be switched in. Bank 0 is the one mapped.
    pub closed spec fn banks(&self) -> Seq<[u8; CARTRIDGE_ROM_SWITCHABLE_BANK_SIZE]> {
        self.switchable_banks@
    }

    /// The address space at power-on: the boot overlay enabled, the display
    /// controller in OAM search on row 0, the fixed bank and the first
    /// switchable bank mapped, and no report pending.
    pub fn new(
        fixed_bank: [u8; CARTRIDGE_ROM_FIXED_BANK_SIZE],
        switchable_banks: &'a [[u8; CARTRIDGE_ROM_SWITCHABLE_BANK_SIZE]],
        video: V,
    ) -> (memory: Self)
        ensures
            memory@ == (MemoryView {
                bytes: initial_bytes(switched_bank(switchable_banks@), fixed_bank@),
                boot_enabled: true,
                scanline: ScanLine::Oam,
                tile_updates: video.tile_updates(),
                register_reports: Seq::empty(),
            }),
            memory.display() == video,
            memory.banks() == switchable_banks@,
    {
        let map = if switchable_banks.len() == 0 {
            let zeros = [0u8; CARTRIDGE_ROM_SWITCHABLE_BANK_SIZE];
            assert(zeros@ =~= switched_bank(switchable_banks@));
            MemMap::new(&zeros, &fixed_bank)
        } else {
            MemMap::new(&switchable_banks[0], &fixed_bank)
        };
        Memory {
            map,
            bios_loaded: true,
            video,
            switchable_banks,
            scanline: ScanLine::Oam,
            register_reports: Vec::new(),
        }
    }

    /// Moves the scanline timing on by the cycles in `scanline_counter`.
    /// Where they reach what the current phase takes, that many are taken off
    /// the counter and the next phase begins; the end of the horizontal blank
    /// also moves the row counter on. At most one phase ends per call.
    pub fn update_scanline(&mut self, scanline_counter: &mut u16)
        ensures
            final(self)@ == old(self)@.scanline_advanced(*old(scanline_counter)),
            *final(scanline_counter) == old(self)@.scanline_remainder(*old(scanline_counter)),
            final(self).display() == old(self).display(),
            final(self).banks() == old(self).banks(),
    {
        match self.scanline {
            ScanLine::Oam => {
                if *scanline_counter >= OAM_CYCLES {
                    self.scanline = ScanLine::Vram;
                    *scanline_counter -= OAM_CYCLES;
                }
            },
            ScanLine::Vram => {
                if *scanline_counter >= VRAM_CYCLES {
                    self.scanline = ScanLine::HorizontalBlank;
                    *scanline_counter -= VRAM_CYCLES;
                }
            },
            ScanLine::HorizontalBlank => {
                if *scanline_counter >= HORIZONTAL_BLANK_CYCLES {
                    self.scanline = ScanLine::Oam;
                    self.increment_scanline_y();
                    *scanline_counter -= HORIZONTAL_BLANK_CYCLES;
                }
            },
        }
    }

    /// Moves the row counter to the next row.
    fn increment_scanline_y(&mut self)
        ensures
            final(self)@ == (MemoryView {
                bytes: old(self)@.bytes.update(
                    REGISTER_SCANLINE_Y as int,
                    next_row(old(self)@.scanline_y()),
                ),
                ..old(self)@
            }),
            final(self).display() == old(self).display(),
            final(self).banks() == old(self).banks(),
    {
        let y: u8 = self.map.0[REGISTER_SCANLINE_Y as usize];
        let next: u8 = if y >= SCANLINE_ROWS - 1 {
            0
        } else {
            y + 1
        };
        self.map.0[REGISTER_SCANLINE_Y as usize] = next;
    }

    /// The phase of the current display row.
    pub fn scanline(&self) -> (phase: ScanLine)
        ensures
            phase == self@.scanline,
    {
        self.scanline
    }

    /// Whether the boot overlay still covers the first 256 addresses.
    pub fn bios_loaded(&self) -> (loaded: bool)
        ensures
            loaded == self@.boot_enabled,
    {
        self.bios_loaded
    }

    /// Takes the boot overlay away. Nothing brings it back.
    pub fn disable_bios(&mut self)
        ensures
            final(self)@ == (MemoryView { boot_enabled: false, ..old(self)@ }),
            final(self).display() == old(self).display(),
            final(self).banks() == old(self).banks(),
    {
        self.bios_loaded = false;
    }

    /// Reads the byte at `address`.
    pub fn read_byte(&self, address: u16) -> (result: Result<u8, Fault>)
        ensures
            result == self@.read_byte(address),
    {
        if self.bios_loaded && address < 0x0100 {
            Ok(BIOS[address as usize])
        } else {
            let val: u8 = self.map.0[address as usize];
            if HARDWARE_IO_REGISTERS_START <= address && address <= HARDWARE_IO_REGISTERS_END
                && address != REGISTER_SCROLL_POSITION_Y && address != REGISTER_SCANLINE_Y {
                Err(Fault::UnimplementedRead { address, value: val })
            } else {
                Ok(val)
            }
        }
    }

    /// Sends the display the eight pixels of the tile row that `address`
    /// belongs to.
    fn notify_tile_row(&mut self, address: u16)
        requires
            is_video_ram(address),
        ensures
            final(self)@ == (MemoryView {
                tile_updates: old(self)@.tile_updates + tile_row(
                    address,
                    old(self)@.bytes[address - address % 2],
                    old(self)@.bytes[address - address % 2 + 1],
                ),
                ..old(self)@
            }),
            final(self).banks() == old(self).banks(),
    {
        let normalized_index: usize = (address - address % 2) as usize;
        let byte1: u8 = self.map.0[normalized_index];
        let byte2: u8 = self.map.0[normalized_index + 1];
        let tile_index: u16 = (address - VIDEO_RAM_START) / 16;
        let row_index: u16 = (address % 16) / 2;
        let ghost row = tile_row(address, byte1, byte2);
        let ghost before = self.video.tile_updates();

        let mut pixel_index: usize = 0;
        while pixel_index < 8
            invariant
                pixel_index <= 8,
                is_video_ram(address),
                self.map == old(self).map,
                self.switchable_banks == old(self).switchable_banks,
                self.bios_loaded == old(self).bios_loaded,
                self.scanline == old(self).scanline,
                self.register_reports == old(self).register_reports,
                self.video.tile_updates() =~= before + row.subrange(0, pixel_index as int),
                row == tile_row(address, byte1, byte2),
                tile_index == (address - VIDEO_RAM_START) / 16,
                row_index == (address % 16) / 2,
            decreases 8 - pixel_index,
        {
            let bit: u8 = (7 - pixel_index) as u8;
            let lsb = (byte1 >> bit) & 1 == 1;
            let msb = (byte2 >> bit) & 1 == 1;
            let color = Color::from((lsb, msb));
            self.video.set_tile_pixel(tile_index, row_index, pixel_index, color);
            assert(row.subrange(0, pixel_index + 1) =~= row.subrange(0, pixel_index as int).push(
                row[pixel_index as int],
            ));
            pixel_index += 1;
        }
        assert(row.subrange(0, 8) =~= row);
    }

    /// Writes `value` to `address`.
    pub fn write_byte(&mut self, address: u16, value: u8) -> (result: Result<(), Fault>)
        ensures
            result == old(self)@.write_byte(address, value),
            final(self)@ == old(self)@.written(address, value),
            !is_video_ram(address) ==> final(self).display() == old(self).display(),
            final(self)@.tile_updates == old(self)@.tile_updates ==> final(self).display()
                == old(self).display(),
            final(self)@.tile_updates.len() >= old(self)@.tile_updates.len(),
            final(self).banks() == old(self).banks(),
    {
        if self.bios_loaded && address < 0x0100 {
            return Err(Fault::BootOverlayWrite { address, value });
        }
        if HARDWARE_IO_REGISTERS_START <= address && address <= HARDWARE_IO_REGISTERS_END {
            match report(address, value) {
                Some(decoded) => {
                    self.map.0[address as usize] = value;
                    self.register_reports.push(decoded);
                },
                None => {
                    return Err(Fault::UnimplementedWrite { address, value });
                },
            }
        } else {
            self.map.0[address as usize] = value;
        }
        if VIDEO_RAM_START <= address && address <= VIDEO_RAM_END {
            self.notify_tile_row(address);
        }
        Ok(())
    }

    /// Reads the word at `address`: the lower byte at `address`, the upper
    /// byte at the next address.
    pub fn read_word(&self, address: u16) -> (result: Result<u16, Fault>)
        ensures
            result == self@.read_word(address),
    {
        let low: u8 = self.read_byte(address)?;
        let high: u8 = self.read_byte(address.wrapping_add(1))?;
        Ok(bytes_to_word(high, low))
    }

    /// Writes the word `value` at `address`: the lower byte at `address`,
    /// the upper byte at the next address.
    pub fn write_word(&mut self, address: u16, value: u16) -> (result: Result<(), Fault>)
        ensures
            result == old(self)@.write_word(address, value),
            final(self)@ == old(self)@.word_written(address, value),
            final(self)@.tile_updates == old(self)@.tile_updates ==> final(self).display()
                == old(self).display(),
            final(self).banks() == old(self).banks(),
    {
        let (high, low) = word_to_bytes(value);
        self.write_byte(address, low)?;
        self.write_byte(address.wrapping_add(1), high)
    }

    /// Hands over the reports of the register writes made since the last
    /// call, oldest first.
    pub fn take_register_reports(&mut self) -> (reports: Vec<RegisterReport>)
        ensures
            reports@ == old(self)@.register_reports,
            final(self)@ == (MemoryView { register_reports: Seq::empty(), ..old(self)@ }),
            final(self).display() == old(self).display(),
            final(self).banks() == old(self).banks(),
    {
        let mut reports: Vec<RegisterReport> = Vec::new();
        core::mem::swap(&mut self.register_reports, &mut reports);
        reports
    }
}

} // verus!
