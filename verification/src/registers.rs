//! The documented hardware registers, and what a byte written to one means.

use vstd::prelude::*;
use crate::cpu::bit_at;
use crate::video::Color;

verus! {

pub const REGISTER_CHANNEL_ONE_SOUND_LENGTH_WAVE_PATTERN: u16 = 0xFF11;

pub const REGISTER_CHANNEL_ONE_VOLUME_ENVELOPE: u16 = 0xFF12;

pub const REGISTER_CHANNEL_CONTROL: u16 = 0xFF24;

pub const REGISTER_SOUND_SELECTION: u16 = 0xFF25;

pub const REGISTER_SOUND_ENABLE: u16 = 0xFF26;

pub const REGISTER_LCD_CONTROL: u16 = 0xFF40;

pub const REGISTER_SCROLL_POSITION_Y: u16 = 0xFF42;

pub const REGISTER_SCANLINE_Y: u16 = 0xFF44;

pub const REGISTER_BACKGROUND_PALETTE: u16 = 0xFF47;

/// Wave duty and sound length of channel one.
#[derive(Debug, PartialEq, Eq, Clone, Copy, Structural)]
pub struct ChannelOneSoundLengthWavePattern(pub u8);

impl ChannelOneSoundLengthWavePattern {
    /// The wave duty, bits 6 and 7: 0 for 12.5%, 1 for 25%, 2 for 50%, 3 for 75%.
    pub fn duty(&self) -> (duty: u8)
        ensures
            duty == self.0 / 0x40,
            duty <= 3,
    {
        self.0 / 0x40
    }

    /// The length setting, bits 0 to 5. The sound lasts 1 / ((64 - length) * 256) seconds.
    pub fn length_wave(&self) -> (length: u8)
        ensures
            length == self.0 % 0x40,
    {
        self.0 % 0x40
    }
}

/// Volume envelope of channel one.
#[derive(Debug, PartialEq, Eq, Clone, Copy, Structural)]
pub struct ChannelOneVolumeEnvelope(pub u8);

impl ChannelOneVolumeEnvelope {
    /// The initial volume, bits 4 to 6.
    pub fn initial_volume(&self) -> (volume: u8)
        ensures
            volume == (self.0 / 0x10) % 8,
    {
        (self.0 / 0x10) % 8
    }

    /// Bit 3: 1 if the envelope increases the volume, 0 if it decreases it.
    pub fn envelope_direction(&self) -> (direction: u8)
        ensures
            direction == (self.0 / 8) % 2,
    {
        (self.0 / 8) % 2
    }

    /// The number of envelope sweeps, bits 0 to 2.
    pub fn number_of_envelope_sweeps(&self) -> (sweeps: u8)
        ensures
            sweeps == self.0 % 8,
    {
        self.0 % 8
    }
}

/// Master switch of the sound and the state of the four channels.
#[derive(Debug, PartialEq, Eq, Clone, Copy, Structural)]
pub struct SoundEnable(pub u8);

impl SoundEnable {
    /// Bit 7 of the register.
    pub fn all_sound_off(&self) -> (off: bool)
        ensures
            off == (self.0 >= 0x80),
    {
        self.0 >= 0x80
    }

    /// Whether the bit of sound channel `channel`, one of 1 to 4, is set: bit
    /// `channel - 1` of the register.
    pub fn sound_on(&self, channel: u8) -> (on: bool)
        requires
            1 <= channel <= 4,
        ensures
            on == bit_at(self.0, (channel - 1) as u8),
    {
        (self.0 >> (channel - 1)) & 1 == 1
    }
}

/// The two output terminals a sound channel can be routed to.
#[derive(Debug, PartialEq, Eq, Clone, Copy, Structural)]
pub enum Terminal {
    So1,
    So2,
}

/// Which channel goes to which output terminal.
#[derive(Debug, PartialEq, Eq, Clone, Copy, Structural)]
pub struct SoundSelection(pub u8);

impl SoundSelection {
    /// The bit that routes `channel` to `terminal`: channels 1 to 4 take bits
    /// 0 to 3 for SO1 and bits 4 to 7 for SO2.
    pub open spec fn route_bit(channel: u8, terminal: Terminal) -> u8 {
        match terminal {
            Terminal::So1 => (channel - 1) as u8,
            Terminal::So2 => (channel + 3) as u8,
        }
    }

    /// Whether `channel`, one of 1 to 4, is routed to `terminal`.
    pub fn routed(&self, channel: u8, terminal: Terminal) -> (routed: bool)
        requires
            1 <= channel <= 4,
        ensures
            routed == bit_at(self.0, SoundSelection::route_bit(channel, terminal)),
    {
        let bit: u8 = match terminal {
            Terminal::So1 => channel - 1,
            Terminal::So2 => channel + 3,
        };
        (self.0 >> bit) & 1 == 1
    }

    /// The route that bit `bit` of the register stands for: bits 4 to 7
    /// send channels 1 to 4 to SO2, bits 0 to 3 send them to SO1.
    pub open spec fn route_of_bit(bit: u8) -> (u8, Terminal) {
        if bit >= 4 {
            ((bit - 3) as u8, Terminal::So2)
        } else {
            ((bit + 1) as u8, Terminal::So1)
        }
    }

    /// The routes that are set among the upper `n` bits of the register,
    /// bit 7 first.
    pub open spec fn routes_among(self, n: nat) -> Seq<(u8, Terminal)>
        decreases n,
    {
        if n == 0 || n > 8 {
            Seq::empty()
        } else {
            let bit = (8 - n) as u8;
            let above = self.routes_among((n - 1) as nat);
            if bit_at(self.0, bit) {
                above.push(Self::route_of_bit(bit))
            } else {
                above
            }
        }
    }

    /// The routes that are set, each as its channel and its terminal: SO2
    /// before SO1, and for each terminal channel 4 down to channel 1.
    pub fn routes(&self) -> (routes: Vec<(u8, Terminal)>)
        ensures
            routes@ == self.routes_among(8),
    {
        let mut routes: Vec<(u8, Terminal)> = Vec::new();
        let mut n: u8 = 0;
        while n < 8
            invariant
                n <= 8,
                routes@ == self.routes_among(n as nat),
            decreases 8 - n,
        {
            let bit: u8 = 7 - n;
            if (self.0 >> bit) & 1 == 1 {
                let route: (u8, Terminal) = if bit >= 4 {
                    (bit - 3, Terminal::So2)
                } else {
                    (bit + 1, Terminal::So1)
                };
                routes.push(route);
            }
            n += 1;
        }
        routes
    }

    /// Among the upper `n` bits, a route is listed exactly when its bit is
    /// one of them and is set.
    pub proof fn lemma_routes_among(self, n: nat, channel: u8, terminal: Terminal)
        requires
            n <= 8,
            1 <= channel <= 4,
        ensures
            self.routes_among(n).contains((channel, terminal)) <==> (Self::route_bit(
                channel,
                terminal,
            ) >= 8 - n && bit_at(self.0, Self::route_bit(channel, terminal))),
            self.routes_among(n).len() <= n,
        decreases n,
    {
        if n > 0 {
            self.lemma_routes_among((n - 1) as nat, channel, terminal);
            let bit = (8 - n) as u8;
            let above = self.routes_among((n - 1) as nat);
            let wanted = (channel, terminal);
            assert(Self::route_of_bit(bit) == wanted <==> bit == Self::route_bit(channel, terminal));
            if bit_at(self.0, bit) {
                let all = above.push(Self::route_of_bit(bit));
                assert(all[above.len() as int] == Self::route_of_bit(bit));
                if above.contains(wanted) {
                    let i = choose|i: int| 0 <= i < above.len() && above[i] == wanted;
                    assert(all[i] == wanted);
                }
                if all.contains(wanted) {
                    let i = choose|i: int| 0 <= i < all.len() && all[i] == wanted;
                    if i < above.len() {
                        assert(above[i] == wanted);
                    }
                }
            }
        } else {
            assert(!self.routes_among(0).contains((channel, terminal)));
        }
    }

    /// The list of routes holds exactly the routes that are set: a channel
    /// and a terminal are listed if and only if the channel is routed to the
    /// terminal.
    pub proof fn lemma_routes_are_the_routed(self, channel: u8, terminal: Terminal)
        requires
            1 <= channel <= 4,
        ensures
            self.routes_among(8).contains((channel, terminal)) <==> bit_at(
                self.0,
                Self::route_bit(channel, terminal),
            ),
            self.routes_among(8).len() <= 8,
    {
        self.lemma_routes_among(8, channel, terminal);
    }
}

/// Volume of the two output terminals.
#[derive(Debug, PartialEq, Eq, Clone, Copy, Structural)]
pub struct ChannelControl(pub u8);

impl ChannelControl {
    /// The volume of SO2, bits 4 to 6, if bit 7 enables it.
    pub fn so2_volume(&self) -> (volume: Option<u8>)
        ensures
            volume == if self.0 >= 0x80 {
                Some(((self.0 / 0x10) % 8) as u8)
            } else {
                None
            },
    {
        if self.0 >= 0x80 {
            Some((self.0 / 0x10) % 8)
        } else {
            None
        }
    }

    /// The volume of SO1, bits 0 to 2, if bit 3 enables it.
    pub fn so1_volume(&self) -> (volume: Option<u8>)
        ensures
            volume == if (self.0 / 8) % 2 == 1 {
                Some((self.0 % 8) as u8)
            } else {
                None
            },
    {
        if (self.0 / 8) % 2 == 1 {
            Some(self.0 % 8)
        } else {
            None
        }
    }
}

/// The colors that the four shades of the background are mapped to.
#[derive(Debug, PartialEq, Eq, Clone, Copy, Structural)]
pub struct BackgroundPalette(pub u8);

impl BackgroundPalette {
    /// The two bits of shade `index`: shade 0 in bits 0 and 1, shade 3 in
    /// bits 6 and 7.
    pub open spec fn entry(self, index: u8) -> u8 {
        if index == 0 {
            self.0 % 4
        } else if index == 1 {
            (self.0 / 4) % 4
        } else if index == 2 {
            (self.0 / 0x10) % 4
        } else {
            self.0 / 0x40
        }
    }

    /// The color that shade `index`, one of 0 to 3, is mapped to.
    pub fn shade(&self, index: u8) -> (color: Color)
        requires
            index <= 3,
        ensures
            color == Color::spec_from_shade(self.entry(index)),
    {
        let bits: u8 = if index == 0 {
            self.0 % 4
        } else if index == 1 {
            (self.0 / 4) % 4
        } else if index == 2 {
            (self.0 / 0x10) % 4
        } else {
            self.0 / 0x40
        };
        Color::from_shade(bits)
    }
}

/// The LCD control byte, kept as written.
#[derive(Debug, PartialEq, Eq, Clone, Copy, Structural)]
pub struct LcdControl(pub u8);

/// A write to a documented hardware register, decoded by register.
#[derive(Debug, PartialEq, Eq, Clone, Copy, Structural)]
pub enum RegisterReport {
    ChannelOneSoundLengthWavePattern(ChannelOneSoundLengthWavePattern),
    ChannelOneVolumeEnvelope(ChannelOneVolumeEnvelope),
    ChannelControl(ChannelControl),
    SoundSelection(SoundSelection),
    SoundEnable(SoundEnable),
    LcdControl(LcdControl),
    ScrollPositionY(u8),
    BackgroundPalette(BackgroundPalette),
}

/// What writing `value` to `address` reports, or `None` where `address` is
/// no register that takes writes.
pub open spec fn spec_report(address: u16, value: u8) -> Option<RegisterReport> {
    if address == REGISTER_CHANNEL_ONE_SOUND_LENGTH_WAVE_PATTERN {
        Some(
            RegisterReport::ChannelOneSoundLengthWavePattern(
                ChannelOneSoundLengthWavePattern(value),
            ),
        )
    } else if address == REGISTER_CHANNEL_ONE_VOLUME_ENVELOPE {
        Some(RegisterReport::ChannelOneVolumeEnvelope(ChannelOneVolumeEnvelope(value)))
    } else if address == REGISTER_CHANNEL_CONTROL {
        Some(RegisterReport::ChannelControl(ChannelControl(value)))
    } else if address == REGISTER_SOUND_SELECTION {
        Some(RegisterReport::SoundSelection(SoundSelection(value)))
    } else if address == REGISTER_SOUND_ENABLE {
        Some(RegisterReport::SoundEnable(SoundEnable(value)))
    } else if address == REGISTER_LCD_CONTROL {
        Some(RegisterReport::LcdControl(LcdControl(value)))
    } else if address == REGISTER_SCROLL_POSITION_Y {
        Some(RegisterReport::ScrollPositionY(value))
    } else if address == REGISTER_BACKGROUND_PALETTE {
        Some(RegisterReport::BackgroundPalette(BackgroundPalette(value)))
    } else {
        None
    }
}

/// Decodes a write of `value` to the hardware register at `address`.
#[verifier::when_used_as_spec(spec_report)]
pub fn report(address: u16, value: u8) -> (decoded: Option<RegisterReport>)
    ensures
        decoded == spec_report(address, value),
{
    if address == REGISTER_CHANNEL_ONE_SOUND_LENGTH_WAVE_PATTERN {
        Some(
            RegisterReport::ChannelOneSoundLengthWavePattern(
                ChannelOneSoundLengthWavePattern(value),
            ),
        )
    } else if address == REGISTER_CHANNEL_ONE_VOLUME_ENVELOPE {
        Some(RegisterReport::ChannelOneVolumeEnvelope(ChannelOneVolumeEnvelope(value)))
    } else if address == REGISTER_CHANNEL_CONTROL {
        Some(RegisterReport::ChannelControl(ChannelControl(value)))
    } else if address == REGISTER_SOUND_SELECTION {
        Some(RegisterReport::SoundSelection(SoundSelection(value)))
    } else if address == REGISTER_SOUND_ENABLE {
        Some(RegisterReport::SoundEnable(SoundEnable(value)))
    } else if address == REGISTER_LCD_CONTROL {
        Some(RegisterReport::LcdControl(LcdControl(value)))
    } else if address == REGISTER_SCROLL_POSITION_Y {
        Some(RegisterReport::ScrollPositionY(value))
    } else if address == REGISTER_BACKGROUND_PALETTE {
        Some(RegisterReport::BackgroundPalette(BackgroundPalette(value)))
    } else {
        None
    }
}

} // verus!
