//! What the core asks of a display: the capability set of a video
//! collaborator, the colors it is handed, and two plain collaborators.

use vstd::prelude::*;

verus! {

/// Which of the four buttons are held down.
#[derive(Debug)]
pub struct ButtonState {
    pub start: bool,
    pub select: bool,
    pub a: bool,
    pub b: bool,
}

/// Which directions of the pad are held down.
#[derive(Debug)]
pub struct DirectionState {
    pub up: bool,
    pub down: bool,
    pub left: bool,
    pub right: bool,
}

/// The four shades a pixel can take.
#[derive(Debug, PartialEq, Eq, Clone, Copy, Structural)]
pub enum Color {
    Black,
    LightGray,
    DarkGray,
    White,
}

/// Red, green and blue, eight bits each, packed into the low 24 bits.
pub open spec fn rgb(r: u8, g: u8, b: u8) -> u32 {
    (r * 0x1_0000 + g * 0x100 + b) as u32
}

/// Packs red, green and blue into one value, red in bits 16 to 23.
pub fn from_u8_rgb(r: u8, g: u8, b: u8) -> (packed: u32)
    ensures
        packed == rgb(r, g, b),
{
    let (r, g, b) = (r as u32, g as u32, b as u32);
    assert((r << 16) | (g << 8) | b == r * 0x1_0000 + g * 0x100 + b) by (bit_vector)
        requires
            r < 0x100,
            g < 0x100,
            b < 0x100,
    ;
    (r << 16) | (g << 8) | b
}

impl Default for Color {
    fn default() -> (color: Color)
        ensures
            color == Color::White,
    {
        Color::White
    }
}

impl Color {
    /// The gray level of each shade, the same on all three channels.
    pub open spec fn level(self) -> u8 {
        match self {
            Color::Black => 0,
            Color::LightGray => 170,
            Color::DarkGray => 85,
            Color::White => 255,
        }
    }

    /// The color that a pixel's two bit planes select.
    pub open spec fn from_planes(lsb: bool, msb: bool) -> Color {
        if lsb {
            if msb {
                Color::White
            } else {
                Color::DarkGray
            }
        } else {
            if msb {
                Color::LightGray
            } else {
                Color::Black
            }
        }
    }

    /// The color that a two-bit palette entry names.
    pub open spec fn spec_from_shade(shade: u8) -> Color {
        if shade == 0 {
            Color::White
        } else if shade == 1 {
            Color::LightGray
        } else if shade == 2 {
            Color::DarkGray
        } else {
            Color::Black
        }
    }

    /// The shade as a packed RGB value.
    pub fn to_u8_rgb(self) -> (packed: u32)
        ensures
            packed == rgb(self.level(), self.level(), self.level()),
    {
        let (r, g, b): (u8, u8, u8) = match self {
            Color::Black => (0, 0, 0),
            Color::LightGray => (170, 170, 170),
            Color::DarkGray => (85, 85, 85),
            Color::White => (255, 255, 255),
        };
        from_u8_rgb(r, g, b)
    }

    /// The color of a two-bit palette entry: 0 is white, 3 is black.
    pub fn from_shade(shade: u8) -> (color: Color)
        requires
            shade <= 3,
        ensures
            color == Color::spec_from_shade(shade),
    {
        if shade == 0 {
            Color::White
        } else if shade == 1 {
            Color::LightGray
        } else if shade == 2 {
            Color::DarkGray
        } else {
            Color::Black
        }
    }
}

impl From<(bool, bool)> for Color {
    /// The color of a pixel from its low and its high bit plane.
    fn from(planes: (bool, bool)) -> (color: Color) {
        match planes {
            (true, true) => Color::White,
            (true, false) => Color::DarkGray,
            (false, true) => Color::LightGray,
            (false, false) => Color::Black,
        }
    }
}

impl vstd::std_specs::convert::FromSpecImpl<(bool, bool)> for Color {
    open spec fn obeys_from_spec() -> bool {
        true
    }

    open spec fn from_spec(planes: (bool, bool)) -> Color {
        Color::from_planes(planes.0, planes.1)
    }
}

/// One pixel of one tile, as a video collaborator is told of it.
#[derive(Debug, PartialEq, Eq, Clone, Copy, Structural)]
pub struct TileUpdate {
    pub tile_index: u16,
    pub row_index: u16,
    pub pixel_index: usize,
    pub color: Color,
}

/// Number of tiles that video RAM holds.
pub const TILE_COUNT: u16 = 512;

/// Number of tiles in one row of the tile sheet.
pub const TILES_PER_ROW: u16 = 32;

/// Where a display that lays the tiles out as a sheet, 32 to a row, puts
/// one tile pixel: the tile's column and the row index give `x`, the tile's
/// row and the pixel index give `y`.
pub open spec fn sheet_position(tile_index: u16, row_index: u16, pixel_index: usize) -> (u32, u32) {
    (
        ((tile_index % TILES_PER_ROW) * 8 + row_index) as u32,
        ((tile_index / TILES_PER_ROW) * 8 + pixel_index) as u32,
    )
}

/// The position of one tile pixel on the tile sheet. With the indices in
/// the ranges that the core sends, the position lies within 256 by 128.
pub fn tile_pixel_position(tile_index: u16, row_index: u16, pixel_index: usize) -> (position: (
    u32,
    u32,
))
    requires
        tile_index < TILE_COUNT,
        row_index < 8,
        pixel_index < 8,
    ensures
        position == sheet_position(tile_index, row_index, pixel_index),
        position.0 < 256,
        position.1 < 128,
{
    let x: u16 = (tile_index % TILES_PER_ROW) * 8 + row_index;
    let y: u16 = (tile_index / TILES_PER_ROW) * 8 + (pixel_index as u16);
    (x as u32, y as u32)
}

/// What the core requires of a display.
pub trait Video {
    /// Every tile pixel this collaborator has been told of, oldest first.
    /// A verified collaborator states its own record: the empty default
    /// cannot meet what `set_tile_pixel` promises. The default is there for
    /// collaborators outside verification, which have nothing to state.
    open spec fn tile_updates(&self) -> Seq<TileUpdate> {
        Seq::empty()
    }

    /// Whether the session should go on.
    fn is_running(&self) -> bool;

    /// Shows the pixels received so far.
    fn render(&mut self);

    /// Takes one pixel of one tile, which joins the end of `tile_updates`.
    /// The core names a tile below 512, and a row and a pixel below 8.
    fn set_tile_pixel(&mut self, tile_index: u16, row_index: u16, pixel_index: usize, color: Color)
        requires
            tile_index < TILE_COUNT,
            row_index < 8,
            pixel_index < 8,
        ensures
            final(self).tile_updates() == old(self).tile_updates().push(
                (TileUpdate { tile_index, row_index, pixel_index, color }),
            ),
    ;

    fn button_state(&mut self) -> ButtonState;

    fn direction_state(&mut self) -> DirectionState;
}

/// A display that shows nothing and never ends the session.
pub struct NoOutput {
    received: Ghost<Seq<TileUpdate>>,
}

impl NoOutput {
    pub fn new() -> (video: NoOutput)
        ensures
            video.tile_updates() == Seq::<TileUpdate>::empty(),
    {
        NoOutput { received: Ghost(Seq::empty()) }
    }
}

impl Video for NoOutput {
    closed spec fn tile_updates(&self) -> Seq<TileUpdate> {
        self.received@
    }

    fn is_running(&self) -> (running: bool)
        ensures
            running,
    {
        true
    }

    fn render(&mut self)
        ensures
            *final(self) == *old(self),
    {
    }

    fn set_tile_pixel(
        &mut self,
        tile_index: u16,
        row_index: u16,
        pixel_index: usize,
        color: Color,
    ) {
        proof {
            self.received@ = self.received@.push(
                TileUpdate { tile_index, row_index, pixel_index, color },
            );
        }
    }

    fn button_state(&mut self) -> (state: ButtonState)
        ensures
            !state.start && !state.select && !state.a && !state.b,
            *final(self) == *old(self),
    {
        ButtonState { a: false, b: false, select: false, start: false }
    }

    fn direction_state(&mut self) -> (state: DirectionState)
        ensures
            !state.up && !state.down && !state.left && !state.right,
            *final(self) == *old(self),
    {
        DirectionState { left: false, right: false, up: false, down: false }
    }
}

/// The 64 pixels of one tile, by row and by column.
#[derive(Clone, Copy)]
pub struct Tile {
    pub color: [[Color; 8]; 8],
}

impl Tile {
    /// A tile with every pixel white.
    pub fn new() -> (tile: Tile)
        ensures
            forall|row: int, pixel: int|
                0 <= row < 8 && 0 <= pixel < 8 ==> #[trigger] tile.color@[row]@[pixel]
                    == Color::White,
    {
        Tile { color: [[Color::White; 8]; 8] }
    }

    /// Gives the pixel at `pixel_index` of row `row_index` the color `color`
    /// and leaves the other 63 pixels as they are.
    pub fn set(&mut self, row_index: usize, pixel_index: usize, color: Color)
        requires
            row_index < 8,
            pixel_index < 8,
        ensures
            final(self).color@ == old(self).color@.update(
                row_index as int,
                final(self).color@[row_index as int],
            ),
            final(self).color@[row_index as int]@ == old(self).color@[row_index as int]@.update(
                pixel_index as int,
                color,
            ),
    {
        self.color[row_index][pixel_index] = color;
    }
}

} // verus!
