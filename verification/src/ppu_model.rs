//! The mathematical model of the PPU: how a scanline is drawn, which
//! sprites it shows, and what one dot of time changes.

use vstd::prelude::*;
use crate::bits::{bit16, bit8, bits16, bits8, field_value, with_bit16, with_bits16, with_field};
use crate::bus_model::BusModel;
use crate::palette::{system_color, Rgb};
use crate::palette_memory::palette_read_cell;
use crate::ppu_registers::{
    flag, flag_cleared, flag_set, PPURegisters, CTRL_NMI_ENABLE_SHIFT, STATUS_SPRITE0_HIT_SHIFT,
    STATUS_VBLANK_SHIFT,
};
use crate::screen::plotted;

verus! {

/// The dots of one scanline.
pub const DOTS_PER_SCANLINE: usize = 341;

/// The scanlines of one frame.
pub const NUM_SCANLINES: usize = 262;

/// The dots of a scanline that show a pixel.
pub const VISIBLE_DOTS_PER_SCANLINE: usize = 256;

/// The dots of one frame.
pub const DOTS_PER_FRAME: usize = 89342;

/// The most sprites that one scanline shows.
pub const SPRITES_PER_SCANLINE: usize = 8;

/// A sprite as object attribute memory describes it.
#[derive(Clone, Copy, Debug, PartialEq, Eq, Structural)]
pub struct OAMSprite {
    pub y_pixel_coord: u8,
    pub tile_idx: u8,
    /// Bits 0 and 1: the palette; bit 5: behind the background; bit 6:
    /// flipped horizontally; bit 7: flipped vertically.
    pub attribs: u8,
    pub x_pixel_coord: u8,
    /// Whether this is the first sprite of object attribute memory.
    pub sprite_0: bool,
}

/// The state of the PPU.
pub struct PpuModel {
    /// The address in nametable space of the tile that is drawn next.
    pub nametable_addr: u16,
    pub x_scroll: u8,
    pub y_scroll: u8,
    /// The scanline that the PPU is in.
    pub scanlines: usize,
    /// The sprites chosen for the scanline, in the order of object
    /// attribute memory.
    pub sprites: Seq<OAMSprite>,
    /// The dot of the scanline that the PPU is at.
    pub dots: usize,
    /// Whether an interrupt was raised and not yet taken.
    pub generated_interrupt: bool,
}

/// What is known while a scanline is drawn.
pub struct LineState {
    pub nametable_addr: u16,
    /// The column inside the tile of the pixel that is drawn next.
    pub fine_x: u8,
    pub pixels: Seq<Rgb>,
    /// Whether sprite 0 met the background on this scanline.
    pub hit: bool,
}

/// The address of the attribute byte for the tile at `nt`.
pub open spec fn attribute_addr(nt: u16) -> u16 {
    0x23C0u16 | (nt & 0x0C00u16) | ((nt >> 4u16) & 0x38u16) | ((nt >> 2u16) & 0x07u16)
}

/// The column of the tile at `nt` in its nametable.
pub open spec fn coarse_x(nt: u16) -> u8 {
    bits16(nt, 0, 5)
}

/// The row of the tile at `nt` in its nametable.
pub open spec fn coarse_y(nt: u16) -> u8 {
    bits16(nt, 5, 5)
}

/// The background palette of a tile: the attribute byte holds one for each
/// quadrant of its block, and bit 1 of the tile's column and row say which
/// quadrant the tile is in.
pub open spec fn bg_palette_num(attrib: u8, cx: u8, cy: u8) -> u8 {
    if !bit8(cy, 1) && !bit8(cx, 1) {
        bits8(attrib, 0, 2)
    } else if !bit8(cy, 1) {
        bits8(attrib, 2, 2)
    } else if !bit8(cx, 1) {
        bits8(attrib, 4, 2)
    } else {
        bits8(attrib, 6, 2)
    }
}

/// The pixel of the pattern `tile` at column `x` and row `y`: a number
/// from 0 to 3, of which the row's byte in the first plane gives the low
/// bit and the one in the second plane the high bit.
pub open spec fn pattern_pixel(tile: Seq<u8>, x: u8, y: u8, flip_x: bool, flip_y: bool) -> u8
    recommends
        tile.len() == 16,
        x <= 7,
{
    let bit_idx = if flip_x { x } else { (7 - x) as u8 };
    let row: int = if flip_y { 7 - y % 8 } else { (y % 8) as int };
    let low: u8 = if bit8(tile[row], bit_idx) { 1 } else { 0 };
    let high: u8 = if bit8(tile[row + 8], bit_idx) { 2 } else { 0 };
    (low + high) as u8
}

/// The colour of entry `idx` of palette `num`; black where palette memory
/// holds no colour of the system palette.
pub open spec fn palette_color(palette: Seq<u8>, num: u8, idx: u8) -> Rgb {
    system_color(palette[palette_read_cell(0x3F00 + num * 4 + idx)])
}

/// The column after the last that a sprite at column `sx` covers.
pub open spec fn sprite_limit(sx: u8) -> int {
    if sx + 8 > 255 {
        255
    } else {
        sx + 8
    }
}

/// Whether `sprite` covers the pixel at column `x` of scanline `y`, with
/// sprites `height` rows high.
pub open spec fn sprite_covers(sprite: OAMSprite, height: int, x: int, y: int) -> bool {
    &&& sprite.x_pixel_coord <= x < sprite_limit(sprite.x_pixel_coord)
    &&& sprite.y_pixel_coord <= y < sprite.y_pixel_coord + height
}

/// The row of the sprite's picture that scanline `y` shows: counted from
/// the bottom where the sprite is flipped vertically.
pub open spec fn sprite_row(sprite: OAMSprite, height: int, y: int) -> int {
    if flag(sprite.attribs, 7) {
        height - 1 - (y - sprite.y_pixel_coord)
    } else {
        y - sprite.y_pixel_coord
    }
}

/// The pattern that holds row `row` of the sprite's picture. A sprite of
/// eight rows has the pattern of its tile index in the table that PPUCTRL
/// selects. A sprite of sixteen rows has two patterns, one above the
/// other, in the table that bit 0 of its tile index selects; the upper one
/// has the even index.
pub open spec fn sprite_pattern(bus: BusModel, sprite: OAMSprite, row: int) -> Seq<u8> {
    if bus.regs.sprite_height() == 16 {
        bus.pattern_at(
            (sprite.tile_idx % 2) * 0x1000,
            (sprite.tile_idx - sprite.tile_idx % 2 + row / 8) as u8,
        )
    } else {
        bus.pattern(sprite.tile_idx, false)
    }
}

/// The pixel of `sprite` at column `x` of scanline `y`, where it covers it.
pub open spec fn sprite_pixel(bus: BusModel, sprite: OAMSprite, x: int, y: int) -> u8 {
    let row = sprite_row(sprite, bus.regs.sprite_height(), y);
    pattern_pixel(
        sprite_pattern(bus, sprite, row),
        (x - sprite.x_pixel_coord) as u8,
        (row % 8) as u8,
        flag(sprite.attribs, 6),
        false,
    )
}

/// Whether `sprite` shows a pixel of its own at column `x` of scanline
/// `y`.
pub open spec fn sprite_opaque_at(bus: BusModel, sprite: OAMSprite, x: int, y: int) -> bool {
    sprite_covers(sprite, bus.regs.sprite_height(), x, y) && sprite_pixel(bus, sprite, x, y) != 0
}

/// A pixel while the sprites are laid over it.
pub struct PixelState {
    pub color: Rgb,
    pub hit: bool,
}

/// The pixel at column `x` of scanline `y` after `sprite` was laid over
/// it. A sprite behind a background pixel that is not transparent shows
/// the background; sprite 0 over such a pixel is a hit.
pub open spec fn sprite_applied(
    bus: BusModel,
    sprite: OAMSprite,
    x: int,
    y: int,
    bg_color: Rgb,
    bg_transparent: bool,
    acc: PixelState,
) -> PixelState {
    if sprite_opaque_at(bus, sprite, x, y) {
        PixelState {
            color: if flag(sprite.attribs, 5) && !bg_transparent {
                bg_color
            } else {
                palette_color(
                    bus.palette,
                    (field_value(sprite.attribs, 3, 0) + 4) as u8,
                    sprite_pixel(bus, sprite, x, y),
                )
            },
            hit: acc.hit || (sprite.sprite_0 && !bg_transparent),
        }
    } else {
        acc
    }
}

/// The pixel after the first `j` of the sprites were laid over it, the
/// last of them first, so that an earlier sprite hides a later one.
pub open spec fn sprites_applied(
    bus: BusModel,
    sprites: Seq<OAMSprite>,
    j: int,
    x: int,
    y: int,
    bg_color: Rgb,
    bg_transparent: bool,
    acc: PixelState,
) -> PixelState
    decreases j,
{
    if j <= 0 {
        acc
    } else {
        sprites_applied(
            bus,
            sprites,
            j - 1,
            x,
            y,
            bg_color,
            bg_transparent,
            sprite_applied(bus, sprites[j - 1], x, y, bg_color, bg_transparent, acc),
        )
    }
}

/// The nametable address and the column inside the tile after one pixel:
/// past the last column of a tile the next tile begins, and past the last
/// tile of a nametable the nametable beside it.
pub open spec fn advanced_x(nt: u16, fine_x: u8) -> (u16, u8) {
    if fine_x >= 7 {
        if coarse_x(nt) == 31 {
            let wrapped = with_bits16(nt, 0, 5, 0);
            (with_bit16(wrapped, 10, !bit16(wrapped, 10)), 0u8)
        } else {
            (with_bits16(nt, 0, 5, (coarse_x(nt) + 1) as u8), 0u8)
        }
    } else {
        (nt, (fine_x + 1) as u8)
    }
}

/// The background pixel at the tile `nt`: its palette and its entry.
pub open spec fn background_pixel(bus: BusModel, nt: u16, fine_x: u8, row: u8, cy: u8) -> (u8, u8) {
    let attrib = bus.nametable_byte(attribute_addr(nt) as int);
    let tile = bus.pattern(bus.nametable_byte(nt as int), true);
    (bg_palette_num(attrib, coarse_x(nt), cy), pattern_pixel(tile, fine_x, row, false, false))
}

/// The line after the pixel at column `x` of scanline `y` was drawn.
pub open spec fn pixel_drawn(
    bus: BusModel,
    sprites: Seq<OAMSprite>,
    y: int,
    fine_y: u8,
    cy: u8,
    st: LineState,
    x: int,
) -> LineState {
    let (num, idx) = background_pixel(
        bus,
        st.nametable_addr,
        st.fine_x,
        (fine_y + y) as u8,
        cy,
    );
    let bg_color = palette_color(bus.palette, num, idx);
    let px = sprites_applied(
        bus,
        sprites,
        sprites.len() as int,
        x,
        y,
        bg_color,
        idx == 0,
        PixelState { color: bg_color, hit: st.hit },
    );
    let (nt, fine_x) = advanced_x(st.nametable_addr, st.fine_x);
    LineState {
        nametable_addr: nt,
        fine_x,
        pixels: plotted(st.pixels, x, y, px.color),
        hit: px.hit,
    }
}

/// The line after the pixels from column `x` on were drawn.
pub open spec fn pixels_drawn_from(
    bus: BusModel,
    sprites: Seq<OAMSprite>,
    y: int,
    fine_y: u8,
    cy: u8,
    st: LineState,
    x: int,
) -> LineState
    decreases 256 - x,
{
    if x >= 256 {
        st
    } else {
        pixels_drawn_from(
            bus,
            sprites,
            y,
            fine_y,
            cy,
            pixel_drawn(bus, sprites, y, fine_y, cy, st, x),
            x + 1,
        )
    }
}

/// The nametable address after scanline `y`: where the scanline was the
/// last row of its tiles, the next row of tiles begins, and past row 29 the
/// nametable below.
pub open spec fn advanced_y(nt: u16, y_scroll: u8, y: int, cy: u8) -> u16 {
    if (y_scroll + y) % 8 == 7 {
        if cy == 29 {
            let wrapped = with_bits16(nt, 5, 5, 0);
            with_bit16(wrapped, 11, !bit16(wrapped, 11))
        } else if cy == 31 {
            with_bits16(nt, 5, 5, 0)
        } else {
            with_bits16(nt, 5, 5, (cy + 1) as u8)
        }
    } else {
        nt
    }
}

/// The sprite that entry `i` of object attribute memory describes.
pub open spec fn sprite_at(oam: Seq<u8>, i: int) -> OAMSprite
    recommends
        0 <= i < 64,
        oam.len() == 256,
{
    OAMSprite {
        y_pixel_coord: oam[4 * i],
        tile_idx: oam[4 * i + 1],
        attribs: oam[4 * i + 2],
        x_pixel_coord: oam[4 * i + 3],
        sprite_0: i == 0,
    }
}

/// The sprites for scanline `line`, chosen from the entries `i..64` of
/// object attribute memory and added to `chosen`: those whose rows hold
/// the scanline, until there are eight. Sprites are `height` rows high.
pub open spec fn sprites_chosen_from(
    oam: Seq<u8>,
    height: int,
    line: int,
    i: int,
    chosen: Seq<OAMSprite>,
) -> Seq<OAMSprite>
    decreases 64 - i,
{
    if i >= 64 {
        chosen
    } else if chosen.len() < 8 && oam[4 * i] <= line < oam[4 * i] + height {
        sprites_chosen_from(oam, height, line, i + 1, chosen.push(sprite_at(oam, i)))
    } else {
        sprites_chosen_from(oam, height, line, i + 1, chosen)
    }
}

/// The PPU and the bus after a frame ended: the scroll is taken over from
/// the registers, the nametable address points at the tile that they name,
/// and the nametable select of PPUCTRL is cleared.
#[verifier::opaque]
pub open spec fn next_frame(p: PpuModel, bus: BusModel) -> (PpuModel, BusModel) {
    (
        PpuModel {
            scanlines: 0,
            y_scroll: bus.regs.fine_y,
            x_scroll: bus.regs.fine_x,
            nametable_addr: (bus.regs.nametable_base() + (bus.regs.fine_y / 8) * 32
                + bus.regs.fine_x / 8) as u16,
            ..p
        },
        BusModel {
            regs: PPURegisters { ppuctrl: with_field(bus.regs.ppuctrl, 3, 0, 0), ..bus.regs },
            ..bus
        },
    )
}

impl PpuModel {
    /// The counters are inside the frame, and the nametable address is in
    /// nametable space.
    pub open spec fn wf(self) -> bool {
        &&& self.dots < 341
        &&& self.scanlines < 262
        &&& 0x2000 <= self.nametable_addr < 0x3000
        &&& self.sprites.len() <= 8
    }

    /// The PPU at power-up.
    pub open spec fn initial() -> PpuModel {
        PpuModel {
            nametable_addr: 0x2000,
            x_scroll: 0,
            y_scroll: 0,
            scanlines: 0,
            sprites: Seq::empty(),
            dots: 21,
            generated_interrupt: false,
        }
    }

    /// The dots of the frame that have passed.
    pub open spec fn position(self) -> int {
        self.scanlines * 341 + self.dots
    }

    /// The PPU at the start of a scanline: the horizontal scroll is taken
    /// over from the registers.
    #[verifier::opaque]
    pub open spec fn line_started(self, bus: BusModel) -> PpuModel {
        if self.dots == 0 {
            PpuModel {
                x_scroll: bus.regs.fine_x,
                nametable_addr: with_bit16(
                    with_bits16(self.nametable_addr, 0, 5, bus.regs.fine_x / 8),
                    10,
                    bit8(bus.regs.ppuctrl, 0),
                ),
                ..self
            }
        } else {
            self
        }
    }

    /// The line that drawing the scanline of this PPU onto `pixels` gives.
    #[verifier::opaque]
    pub open spec fn line_drawn(self, bus: BusModel, pixels: Seq<Rgb>) -> LineState {
        pixels_drawn_from(
            bus,
            self.sprites,
            self.scanlines as int,
            self.y_scroll % 8,
            coarse_y(self.nametable_addr),
            LineState {
                nametable_addr: self.nametable_addr,
                fine_x: self.x_scroll % 8,
                pixels,
                hit: false,
            },
            0,
        )
    }

    /// The PPU, the bus and the pixels after the scanline was drawn and
    /// the sprites of the next one were chosen.
    #[verifier::opaque]
    pub open spec fn scanline_done(self, bus: BusModel, pixels: Seq<Rgb>) -> (
        PpuModel,
        BusModel,
        Seq<Rgb>,
    ) {
        let line = self.line_drawn(bus, pixels);
        (
            PpuModel {
                nametable_addr: advanced_y(
                    line.nametable_addr,
                    self.y_scroll,
                    self.scanlines as int,
                    coarse_y(self.nametable_addr),
                ),
                sprites: sprites_chosen_from(
                    bus.oam,
                    bus.regs.sprite_height(),
                    self.scanlines + 1,
                    0,
                    Seq::empty(),
                ),
                ..self
            },
            if line.hit {
                BusModel {
                    regs: PPURegisters {
                        ppustatus: flag_set(bus.regs.ppustatus, STATUS_SPRITE0_HIT_SHIFT),
                        ..bus.regs
                    },
                    ..bus
                }
            } else {
                bus
            },
            line.pixels,
        )
    }

    /// The PPU and the bus after the flags of vertical blank were handled
    /// at the dot that the PPU is at.
    #[verifier::opaque]
    pub open spec fn blank_handled(self, bus: BusModel) -> (PpuModel, BusModel) {
        if self.scanlines == 241 && self.dots == 1 {
            (
                PpuModel {
                    generated_interrupt: flag(bus.regs.ppuctrl, CTRL_NMI_ENABLE_SHIFT),
                    ..self
                },
                BusModel {
                    regs: PPURegisters {
                        ppustatus: flag_set(bus.regs.ppustatus, STATUS_VBLANK_SHIFT),
                        ..bus.regs
                    },
                    ..bus
                },
            )
        } else if self.scanlines == 261 && self.dots == 1 {
            (
                self,
                BusModel {
                    regs: PPURegisters {
                        ppustatus: flag_cleared(
                            flag_cleared(bus.regs.ppustatus, STATUS_VBLANK_SHIFT),
                            STATUS_SPRITE0_HIT_SHIFT,
                        ),
                        ..bus.regs
                    },
                    ..bus
                },
            )
        } else {
            (self, bus)
        }
    }

    /// One dot of time: the PPU, the bus and the pixels after it, and
    /// whether it ended the frame.
    #[verifier::opaque]
    pub open spec fn step(self, bus: BusModel, pixels: Seq<Rgb>) -> (
        PpuModel,
        BusModel,
        Seq<Rgb>,
        bool,
    ) {
        let started = self.line_started(bus);
        let p0 = PpuModel { dots: (started.dots + 1) as usize, ..started };
        if p0.dots == 341 {
            let (p1, bus1, pixels1) = if p0.scanlines <= 239 {
                p0.scanline_done(bus, pixels)
            } else {
                (p0, bus, pixels)
            };
            let p2 = PpuModel { scanlines: (p1.scanlines + 1) as usize, dots: 0, ..p1 };
            if p2.scanlines >= 262 {
                let (p3, bus3) = next_frame(p2, bus1);
                (p3, bus3, pixels1, true)
            } else {
                let (p3, bus3) = p2.blank_handled(bus1);
                (p3, bus3, pixels1, false)
            }
        } else {
            let (p2, bus2) = p0.blank_handled(bus);
            (p2, bus2, pixels, false)
        }
    }
}

/// Whether entry `k` of the sprites of the scanline is sprite 0 and shows
/// a pixel of its own at column `x` of scanline `y`.
pub open spec fn zero_sprite_shows(
    bus: BusModel,
    sprites: Seq<OAMSprite>,
    k: int,
    x: int,
    y: int,
) -> bool {
    sprites[k].sprite_0 && sprite_opaque_at(bus, sprites[k], x, y)
}

/// Whether sprite 0 shows a pixel of its own at column `x` of scanline `y`.
pub open spec fn zero_sprite_at(bus: BusModel, sprites: Seq<OAMSprite>, x: int, y: int) -> bool {
    exists|k: int| 0 <= k < sprites.len() && #[trigger] zero_sprite_shows(bus, sprites, k, x, y)
}

/// The line before the pixel at column `x` is drawn, where `st` is the
/// line before the first pixel.
pub open spec fn line_before(
    bus: BusModel,
    sprites: Seq<OAMSprite>,
    y: int,
    fine_y: u8,
    cy: u8,
    st: LineState,
    x: int,
) -> LineState
    decreases x,
{
    if x <= 0 {
        st
    } else {
        pixel_drawn(bus, sprites, y, fine_y, cy, line_before(bus, sprites, y, fine_y, cy, st, x - 1), x - 1)
    }
}

/// Whether at column `x` of scanline `y` sprite 0 shows a pixel of its own
/// over a background pixel that is not transparent.
pub open spec fn zero_sprite_meets_background(
    bus: BusModel,
    sprites: Seq<OAMSprite>,
    y: int,
    fine_y: u8,
    cy: u8,
    st: LineState,
    x: int,
) -> bool {
    let before = line_before(bus, sprites, y, fine_y, cy, st, x);
    background_pixel(bus, before.nametable_addr, before.fine_x, (fine_y + y) as u8, cy).1 != 0
        && zero_sprite_at(bus, sprites, x, y)
}

/// Laying the first `j` sprites over a pixel raises the hit exactly where
/// the background pixel is not transparent and one of them is sprite 0 and
/// shows a pixel of its own.
pub proof fn lemma_sprites_hit(
    bus: BusModel,
    sprites: Seq<OAMSprite>,
    j: int,
    x: int,
    y: int,
    bg_color: Rgb,
    bg_transparent: bool,
    acc: PixelState,
)
    requires
        0 <= j <= sprites.len(),
    ensures
        sprites_applied(bus, sprites, j, x, y, bg_color, bg_transparent, acc).hit == (acc.hit || (
        !bg_transparent && exists|k: int|
            0 <= k < j && #[trigger] zero_sprite_shows(bus, sprites, k, x, y))),
    decreases j,
{
    if j > 0 {
        let next = sprite_applied(bus, sprites[j - 1], x, y, bg_color, bg_transparent, acc);
        lemma_sprites_hit(bus, sprites, j - 1, x, y, bg_color, bg_transparent, next);
        if exists|k: int| 0 <= k < j && #[trigger] zero_sprite_shows(bus, sprites, k, x, y) {
            let k = choose|k: int| 0 <= k < j && #[trigger] zero_sprite_shows(bus, sprites, k, x, y);
            if k < j - 1 {
                assert(0 <= k < j - 1 && zero_sprite_shows(bus, sprites, k, x, y));
            }
        }
        if zero_sprite_shows(bus, sprites, j - 1, x, y) {
            assert(0 <= j - 1 < j && zero_sprite_shows(bus, sprites, j - 1, x, y));
        }
    }
}

/// Drawing on from the line before column `x` gives the same line as
/// drawing all of it.
pub proof fn lemma_line_split(
    bus: BusModel,
    sprites: Seq<OAMSprite>,
    y: int,
    fine_y: u8,
    cy: u8,
    st: LineState,
    x: int,
)
    requires
        0 <= x <= 256,
    ensures
        pixels_drawn_from(bus, sprites, y, fine_y, cy, line_before(bus, sprites, y, fine_y, cy, st, x), x)
            == pixels_drawn_from(bus, sprites, y, fine_y, cy, st, 0),
    decreases x,
{
    if x > 0 {
        lemma_line_split(bus, sprites, y, fine_y, cy, st, x - 1);
    }
}

/// Before column `x` the hit is raised exactly where it was raised at the
/// start of the line or sprite 0 met the background at an earlier column.
pub proof fn lemma_line_hit(
    bus: BusModel,
    sprites: Seq<OAMSprite>,
    y: int,
    fine_y: u8,
    cy: u8,
    st: LineState,
    x: int,
)
    requires
        0 <= x <= 256,
    ensures
        line_before(bus, sprites, y, fine_y, cy, st, x).hit == (st.hit || exists|c: int|
            0 <= c < x && #[trigger] zero_sprite_meets_background(bus, sprites, y, fine_y, cy, st, c)),
    decreases x,
{
    if x > 0 {
        lemma_line_hit(bus, sprites, y, fine_y, cy, st, x - 1);
        let before = line_before(bus, sprites, y, fine_y, cy, st, x - 1);
        let (num, idx) = background_pixel(
            bus,
            before.nametable_addr,
            before.fine_x,
            (fine_y + y) as u8,
            cy,
        );
        let bg_color = palette_color(bus.palette, num, idx);
        lemma_sprites_hit(
            bus,
            sprites,
            sprites.len() as int,
            x - 1,
            y,
            bg_color,
            idx == 0,
            PixelState { color: bg_color, hit: before.hit },
        );
        if exists|c: int|
            0 <= c < x && #[trigger] zero_sprite_meets_background(bus, sprites, y, fine_y, cy, st, c) {
            let c = choose|c: int|
                0 <= c < x && #[trigger] zero_sprite_meets_background(
                    bus,
                    sprites,
                    y,
                    fine_y,
                    cy,
                    st,
                    c,
                );
            if c < x - 1 {
                assert(0 <= c < x - 1 && zero_sprite_meets_background(
                    bus,
                    sprites,
                    y,
                    fine_y,
                    cy,
                    st,
                    c,
                ));
            }
        }
        if zero_sprite_meets_background(bus, sprites, y, fine_y, cy, st, x - 1) {
            assert(0 <= x - 1 < x && zero_sprite_meets_background(
                bus,
                sprites,
                y,
                fine_y,
                cy,
                st,
                x - 1,
            ));
        }
    }
}

/// The line before the first pixel of the scanline of `p` is drawn.
pub open spec fn line_start(p: PpuModel, pixels: Seq<Rgb>) -> LineState {
    LineState { nametable_addr: p.nametable_addr, fine_x: p.x_scroll % 8, pixels, hit: false }
}

/// Whether at column `c` of the scanline of `p` sprite 0 shows a pixel of
/// its own over a background pixel that is not transparent.
pub open spec fn zero_sprite_hits(p: PpuModel, bus: BusModel, pixels: Seq<Rgb>, c: int) -> bool {
    zero_sprite_meets_background(
        bus,
        p.sprites,
        p.scanlines as int,
        p.y_scroll % 8,
        coarse_y(p.nametable_addr),
        line_start(p, pixels),
        c,
    )
}

/// Drawing a scanline raises the sprite-0 hit exactly where at some column
/// of it sprite 0 shows a pixel of its own over a background pixel that is
/// not transparent.
pub proof fn lemma_sprite_zero_hit(p: PpuModel, bus: BusModel, pixels: Seq<Rgb>)
    ensures
        p.line_drawn(bus, pixels).hit == exists|c: int|
            0 <= c < 256 && #[trigger] zero_sprite_hits(p, bus, pixels, c),
{
    reveal(PpuModel::line_drawn);
    let st = line_start(p, pixels);
    let y = p.scanlines as int;
    let fine_y = p.y_scroll % 8;
    let cy = coarse_y(p.nametable_addr);
    lemma_line_split(bus, p.sprites, y, fine_y, cy, st, 256);
    lemma_line_hit(bus, p.sprites, y, fine_y, cy, st, 256);
    if exists|c: int|
        0 <= c < 256 && #[trigger] zero_sprite_meets_background(bus, p.sprites, y, fine_y, cy, st, c) {
        let c = choose|c: int|
            0 <= c < 256 && #[trigger] zero_sprite_meets_background(
                bus,
                p.sprites,
                y,
                fine_y,
                cy,
                st,
                c,
            );
        assert(0 <= c < 256 && zero_sprite_hits(p, bus, pixels, c));
    }
    if exists|c: int| 0 <= c < 256 && #[trigger] zero_sprite_hits(p, bus, pixels, c) {
        let c = choose|c: int| 0 <= c < 256 && #[trigger] zero_sprite_hits(p, bus, pixels, c);
        assert(0 <= c < 256 && zero_sprite_meets_background(bus, p.sprites, y, fine_y, cy, st, c));
    }
}

/// What one dot does to the flags of PPUSTATUS. The flag of vertical blank
/// is set at dot 1 of scanline 241, cleared at dot 1 of scanline 261 and
/// left alone by every other dot. The sprite-0 hit is cleared at dot 1 of
/// scanline 261; it is raised only by the dot that ends a visible
/// scanline, where drawing that scanline raised it, and so never during
/// vertical blank.
pub proof fn lemma_step_flags(p: PpuModel, bus: BusModel, pixels: Seq<Rgb>)
    requires
        p.wf(),
    ensures
        ({
            let (p1, bus1, pixels1, ended) = p.step(bus, pixels);
            let at_set = p1.scanlines == 241 && p1.dots == 1;
            let at_clear = p1.scanlines == 261 && p1.dots == 1;
            let draws = p.dots == 340 && p.scanlines <= 239;
            &&& at_set ==> flag(bus1.regs.ppustatus, STATUS_VBLANK_SHIFT)
            &&& at_clear ==> !flag(bus1.regs.ppustatus, STATUS_VBLANK_SHIFT) && !flag(
                bus1.regs.ppustatus,
                STATUS_SPRITE0_HIT_SHIFT,
            )
            &&& !at_set && !at_clear ==> flag(bus1.regs.ppustatus, STATUS_VBLANK_SHIFT) == flag(
                bus.regs.ppustatus,
                STATUS_VBLANK_SHIFT,
            )
            &&& !at_clear && !draws ==> flag(bus1.regs.ppustatus, STATUS_SPRITE0_HIT_SHIFT)
                == flag(bus.regs.ppustatus, STATUS_SPRITE0_HIT_SHIFT)
            &&& draws ==> flag(bus1.regs.ppustatus, STATUS_SPRITE0_HIT_SHIFT) == (flag(
                bus.regs.ppustatus,
                STATUS_SPRITE0_HIT_SHIFT,
            ) || (PpuModel { dots: 341, ..p }).line_drawn(bus, pixels).hit)
        }),
{
    reveal(PpuModel::step);
    reveal(PpuModel::line_started);
    reveal(PpuModel::scanline_done);
    reveal(PpuModel::blank_handled);
    reveal(next_frame);
    let s = bus.regs.ppustatus;
    crate::ppu_registers::lemma_flag_update(s, STATUS_VBLANK_SHIFT, STATUS_SPRITE0_HIT_SHIFT);
    crate::ppu_registers::lemma_flag_update(s, STATUS_SPRITE0_HIT_SHIFT, STATUS_VBLANK_SHIFT);
    crate::ppu_registers::lemma_flag_update(
        flag_cleared(s, STATUS_VBLANK_SHIFT),
        STATUS_SPRITE0_HIT_SHIFT,
        STATUS_VBLANK_SHIFT,
    );
}

} // verus!
