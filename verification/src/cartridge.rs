//! The cartridge image: a game name in its header, one fixed bank, and the
//! switchable banks behind it.

use vstd::prelude::*;
use crate::memory::{
    initial_bytes, switched_bank, CARTRIDGE_ROM_FIXED_BANK_SIZE,
    CARTRIDGE_ROM_SWITCHABLE_BANK_SIZE,
};

verus! {

/// Where the game name begins in the image.
pub const NAME_START: usize = 0x134;

/// Where the game name ends in the image, exclusive.
pub const NAME_END: usize = 0x142;

/// The number of switchable banks in an image of `len` bytes: one for every
/// 16KB behind the fixed bank, a last partial one included.
pub open spec fn bank_count(len: int) -> int {
    if len <= 0x4000 {
        0
    } else {
        (len - 0x4000 + 0x3FFF) / 0x4000
    }
}

/// The byte at `offset` of switchable bank `bank`: the image's byte there,
/// or zero where the image has ended.
pub open spec fn bank_byte(rom: Seq<u8>, bank: int, offset: int) -> u8 {
    let at = 0x4000 * (bank + 1) + offset;
    if at < rom.len() {
        rom[at]
    } else {
        0
    }
}

/// A cartridge image taken apart.
pub struct Cartridge {
    /// The game name of the header, without its trailing null bytes.
    pub name: Vec<u8>,
    /// The first 16KB of the image.
    pub fixed_bank: [u8; CARTRIDGE_ROM_FIXED_BANK_SIZE],
    /// The 16KB chunks behind the fixed bank, the last one padded with zeros.
    pub switchable_banks: Vec<[u8; CARTRIDGE_ROM_SWITCHABLE_BANK_SIZE]>,
}

impl Cartridge {
    /// Whether this is what `rom` holds.
    pub open spec fn holds(&self, rom: Seq<u8>) -> bool {
        &&& is_game_name(rom, self.name@)
        &&& self.fixed_bank@ == rom.subrange(0, 0x4000)
        &&& self.switchable_banks@.len() == bank_count(rom.len() as int)
        &&& forall|bank: int, offset: int|
            0 <= bank < self.switchable_banks@.len() && 0 <= offset < 0x4000
                ==> #[trigger] self.switchable_banks@[bank]@[offset] == bank_byte(
                rom,
                bank,
                offset,
            )
    }

    /// Takes an image apart. An image shorter than the fixed bank is no
    /// cartridge.
    pub fn load(rom: &[u8]) -> (cartridge: Option<Cartridge>)
        ensures
            cartridge.is_some() <==> rom@.len() >= 0x4000,
            cartridge.is_some() ==> cartridge.unwrap().holds(rom@),
    {
        if rom.len() < CARTRIDGE_ROM_FIXED_BANK_SIZE {
            return None;
        }
        let name = game_name(rom);
        let fixed_bank = fixed_bank(rom);
        let switchable_banks = switchable_banks(rom);
        Some(Cartridge { name, fixed_bank, switchable_banks })
    }
}

/// An address space built from a cartridge shows the image as it is: below
/// 0x8000 every address holds the image's byte, or zero where the image has
/// ended.
pub proof fn lemma_image_is_mapped(cartridge: Cartridge, rom: Seq<u8>, address: int)
    requires
        rom.len() >= 0x4000,
        cartridge.holds(rom),
        0 <= address < 0x8000,
    ensures
        initial_bytes(switched_bank(cartridge.switchable_banks@), cartridge.fixed_bank@)[address]
            == if address < rom.len() {
            rom[address]
        } else {
            0
        },
{
    if address >= 0x4000 {
        if cartridge.switchable_banks@.len() > 0 {
            assert(cartridge.switchable_banks@[0]@[address - 0x4000] == bank_byte(
                rom,
                0,
                address - 0x4000,
            ));
        }
    }
}

/// Whether `name` is the game name of the image `rom`: the header's bytes
/// up to the last one that is not null.
pub open spec fn is_game_name(rom: Seq<u8>, name: Seq<u8>) -> bool {
    &&& name.len() <= NAME_END - NAME_START
    &&& name == rom.subrange(NAME_START as int, NAME_START + name.len())
    &&& forall|i: int| NAME_START + name.len() <= i < NAME_END ==> rom[i] == 0
    &&& name.len() > 0 ==> name.last() != 0
}

/// The game name in the header of `rom`, without its trailing null bytes.
pub fn game_name(rom: &[u8]) -> (name: Vec<u8>)
    requires
        rom@.len() >= NAME_END,
    ensures
        is_game_name(rom@, name@),
{
    let mut end: usize = NAME_END;
    while end > NAME_START && rom[end - 1] == 0
        invariant
            NAME_START <= end <= NAME_END,
            rom@.len() >= NAME_END,
            forall|i: int| end <= i < NAME_END ==> rom@[i] == 0,
        decreases end,
    {
        end -= 1;
    }
    let mut name: Vec<u8> = Vec::new();
    let mut at: usize = NAME_START;
    while at < end
        invariant
            NAME_START <= at <= end <= NAME_END,
            rom@.len() >= NAME_END,
            name@ == rom@.subrange(NAME_START as int, at as int),
        decreases end - at,
    {
        name.push(rom[at]);
        assert(name@ =~= rom@.subrange(NAME_START as int, at + 1));
        at += 1;
    }
    name
}

/// The first 16KB of `rom`.
pub fn fixed_bank(rom: &[u8]) -> (bank: [u8; CARTRIDGE_ROM_FIXED_BANK_SIZE])
    requires
        rom@.len() >= 0x4000,
    ensures
        bank@ == rom@.subrange(0, 0x4000),
{
    let mut bank = [0u8; CARTRIDGE_ROM_FIXED_BANK_SIZE];
    let mut i: usize = 0;
    while i < CARTRIDGE_ROM_FIXED_BANK_SIZE
        invariant
            i <= 0x4000,
            rom@.len() >= 0x4000,
            forall|j: int| 0 <= j < i ==> bank@[j] == rom@[j],
        decreases 0x4000 - i,
    {
        bank[i] = rom[i];
        i += 1;
    }
    assert(bank@ =~= rom@.subrange(0, 0x4000));
    bank
}

/// The 16KB chunk of `rom` that makes up switchable bank `index`, padded
/// with zeros where the image ends within it.
pub fn switchable_bank(rom: &[u8], index: usize) -> (bank: [u8;
    CARTRIDGE_ROM_SWITCHABLE_BANK_SIZE])
    requires
        rom@.len() >= 0x4000,
        index < bank_count(rom@.len() as int),
    ensures
        forall|offset: int|
            0 <= offset < 0x4000 ==> #[trigger] bank@[offset] == bank_byte(
                rom@,
                index as int,
                offset,
            ),
{
    let len: usize = rom.len();
    assert(0x4000 * (index + 1) < len) by {
        let whole = (len - 0x4000 + 0x3FFF) / 0x4000;
        assert(0x4000 * whole <= len - 0x4000 + 0x3FFF);
        assert(index + 1 <= whole);
    }
    let start: usize = CARTRIDGE_ROM_SWITCHABLE_BANK_SIZE * index
        + CARTRIDGE_ROM_FIXED_BANK_SIZE;
    let available: usize = len - start;
    let mut bank = [0u8; CARTRIDGE_ROM_SWITCHABLE_BANK_SIZE];
    let mut offset: usize = 0;
    while offset < CARTRIDGE_ROM_SWITCHABLE_BANK_SIZE
        invariant
            offset <= 0x4000,
            start == 0x4000 * (index + 1),
            start < rom@.len(),
            available == rom@.len() - start,
            forall|j: int| 0 <= j < offset ==> bank@[j] == bank_byte(rom@, index as int, j),
            forall|j: int| offset <= j < 0x4000 ==> bank@[j] == 0,
        decreases 0x4000 - offset,
    {
        if offset < available {
            bank[offset] = rom[start + offset];
        }
        offset += 1;
    }
    bank
}

/// The switchable banks of `rom`, in the order of the image.
pub fn switchable_banks(rom: &[u8]) -> (banks: Vec<[u8; CARTRIDGE_ROM_SWITCHABLE_BANK_SIZE]>)
    requires
        rom@.len() >= 0x4000,
    ensures
        banks@.len() == bank_count(rom@.len() as int),
        forall|bank: int, offset: int|
            0 <= bank < banks@.len() && 0 <= offset < 0x4000 ==> #[trigger] banks@[bank]@[offset]
                == bank_byte(rom@, bank, offset),
{
    let behind: usize = rom.len() - CARTRIDGE_ROM_FIXED_BANK_SIZE;
    let partial: usize = if behind % CARTRIDGE_ROM_SWITCHABLE_BANK_SIZE != 0 {
        1
    } else {
        0
    };
    let count: usize = behind / CARTRIDGE_ROM_SWITCHABLE_BANK_SIZE + partial;
    let mut banks: Vec<[u8; CARTRIDGE_ROM_SWITCHABLE_BANK_SIZE]> = Vec::new();
    let mut index: usize = 0;
    while index < count
        invariant
            index <= count,
            rom@.len() >= 0x4000,
            count == bank_count(rom@.len() as int),
            banks@.len() == index,
            forall|bank: int, offset: int|
                0 <= bank < index && 0 <= offset < 0x4000 ==> #[trigger] banks@[bank]@[offset]
                    == bank_byte(rom@, bank, offset),
        decreases count - index,
    {
        let bank = switchable_bank(rom, index);
        banks.push(bank);
        index += 1;
    }
    banks
}

} // verus!
