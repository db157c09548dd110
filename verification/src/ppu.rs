//! The PPU draws the picture. It counts dots and scanlines, draws a whole
//! scanline when the last dot of it has passed, and raises the interrupt
//! of vertical blank.

use vstd::prelude::*;
use crate::bits::{
    bit16, bit8, bits16, bits8, field_is_set, field_value, get_bit16, get_bit8, get_bits16,
    get_bits8, modify_field, read_field, set_bit16, set_bits16, with_bit16, with_bits16,
};
use crate::bus::Bus;
use crate::bus_model::BusModel;
use crate::palette::Rgb;
use crate::ppu_model::{
    advanced_x, advanced_y, attribute_addr, bg_palette_num, coarse_x, coarse_y, palette_color,
    pattern_pixel, pixel_drawn, pixels_drawn_from, sprite_applied, sprite_at, sprites_applied,
    sprites_chosen_from, LineState, OAMSprite, PixelState, PpuModel, DOTS_PER_FRAME,
    DOTS_PER_SCANLINE,
    NUM_SCANLINES, SPRITES_PER_SCANLINE, VISIBLE_DOTS_PER_SCANLINE,
};
use crate::ppu_registers::{
    flag_set, PPURegisters, CTRL_NMI_ENABLE_SHIFT, CTRL_SPRITE_SIZE_SHIFT,
    STATUS_SPRITE0_HIT_SHIFT, STATUS_VBLANK_SHIFT,
};
use crate::screen::FrameBuffer;

verus! {

/// An address of nametable space stays one when its tile column, its tile
/// row or one of its nametable bits is replaced; the attribute byte of its
/// tile lies in nametable space too; and its tile column and row are below
/// 32.
pub proof fn lemma_nametable_addr(nt: u16, v: u8, b: bool)
    requires
        0x2000 <= nt < 0x3000,
    ensures
        0x2000 <= with_bits16(nt, 0, 5, v) < 0x3000,
        0x2000 <= with_bits16(nt, 5, 5, v) < 0x3000,
        0x2000 <= with_bit16(nt, 10, b) < 0x3000,
        0x2000 <= with_bit16(nt, 11, b) < 0x3000,
        0x2000 <= attribute_addr(nt) < 0x3000,
        coarse_x(nt) <= 31,
        coarse_y(nt) <= 31,
{
    assert(0x2000 <= ((nt & !((((1u32 << 5u16) - 1) as u16) << 0u16)) | (((v as u16) << 0u16) & ((((
    1u32 << 5u16) - 1) as u16) << 0u16))) < 0x3000) by (bit_vector)
        requires
            0x2000 <= nt < 0x3000,
    ;
    assert(0x2000 <= ((nt & !((((1u32 << 5u16) - 1) as u16) << 5u16)) | (((v as u16) << 5u16) & ((((
    1u32 << 5u16) - 1) as u16) << 5u16))) < 0x3000) by (bit_vector)
        requires
            0x2000 <= nt < 0x3000,
    ;
    assert(0x2000 <= (nt | (1u16 << 10u16)) < 0x3000 && 0x2000 <= (nt & !(1u16 << 10u16)) < 0x3000
        && 0x2000 <= (nt | (1u16 << 11u16)) < 0x3000 && 0x2000 <= (nt & !(1u16 << 11u16))
        < 0x3000) by (bit_vector)
        requires
            0x2000 <= nt < 0x3000,
    ;
    assert(0x2000 <= (0x23C0u16 | (nt & 0x0C00u16) | ((nt >> 4u16) & 0x38u16) | ((nt >> 2u16)
        & 0x07u16)) < 0x3000) by (bit_vector);
    assert((((nt >> 0u16) & (((1u32 << 5u16) - 1) as u16)) as u8) <= 31 && (((nt >> 5u16) & (((1u32
        << 5u16) - 1) as u16)) as u8) <= 31) by (bit_vector);
}

/// A field of two bits holds a number below four.
pub proof fn lemma_two_bits(v: u8)
    ensures
        bits8(v, 0, 2) <= 3,
        bits8(v, 2, 2) <= 3,
        bits8(v, 4, 2) <= 3,
        bits8(v, 6, 2) <= 3,
        field_value(v, 3, 0) <= 3,
{
    assert(((v >> 0u8) & (((1u16 << 2u8) - 1) as u8)) <= 3 && ((v >> 2u8) & (((1u16 << 2u8) - 1) as u8))
        <= 3 && ((v >> 4u8) & (((1u16 << 2u8) - 1) as u8)) <= 3 && ((v >> 6u8) & (((1u16 << 2u8)
        - 1) as u8)) <= 3 && ((v & (3u8 << 0u8)) >> 0u8) <= 3) by (bit_vector);
}

impl OAMSprite {
    /// The sprite that four bytes of object attribute memory describe.
    pub fn from(data: &[u8], sprite_0: bool) -> (r: Self)
        requires
            data@.len() >= 4,
        ensures
            r == (OAMSprite {
                y_pixel_coord: data@[0],
                tile_idx: data@[1],
                attribs: data@[2],
                x_pixel_coord: data@[3],
                sprite_0,
            }),
    {
        Self {
            y_pixel_coord: data[0],
            tile_idx: data[1],
            attribs: data[2],
            x_pixel_coord: data[3],
            sprite_0,
        }
    }
}

pub struct PPU {
    nametable_addr: u16,
    x_scroll: u8,
    y_scroll: u8,
    scanlines: usize,
    secondary_oam: Vec<OAMSprite>,
    dots: usize,
    generated_interrupt: bool,
}

impl PPU {
    pub closed spec fn view(&self) -> PpuModel {
        PpuModel {
            nametable_addr: self.nametable_addr,
            x_scroll: self.x_scroll,
            y_scroll: self.y_scroll,
            scanlines: self.scanlines,
            sprites: self.secondary_oam@,
            dots: self.dots,
            generated_interrupt: self.generated_interrupt,
        }
    }

    /// Whether the PPU is consistent. Every function keeps it so.
    pub open spec fn wf(&self) -> bool {
        self@.wf()
    }

    /// The PPU at power-up: 21 dots into the first scanline.
    pub fn new() -> (r: Self)
        ensures
            r@ == PpuModel::initial(),
            r.wf(),
    {
        Self {
            nametable_addr: 0x2000,
            x_scroll: 0,
            y_scroll: 0,
            scanlines: 0,
            secondary_oam: Vec::new(),
            dots: 21,
            generated_interrupt: false,
        }
    }

    /// The scanline that the PPU is in.
    pub fn scanline(&self) -> (r: usize)
        ensures
            r == self@.scanlines,
    {
        self.scanlines
    }

    /// The dot of the scanline that the PPU is at.
    pub fn dot(&self) -> (r: usize)
        ensures
            r == self@.dots,
    {
        self.dots
    }

    /// Steps the PPU by one dot. Returns true when the dot ended the frame,
    /// so that the picture is complete.
    pub fn step<T: FrameBuffer>(&mut self, fb: &mut T, bus: &mut Bus) -> (r: bool)
        requires
            old(self).wf(),
            old(bus).wf(),
        ensures
            final(self).wf(),
            final(bus).wf(),
            (final(self)@, final(bus)@, final(fb).canvas(), r) == old(self)@.step(old(bus)@, old(fb).canvas()),
            final(fb).canvas().len() == old(fb).canvas().len(),
            final(self)@.position() == (old(self)@.position() + 1) % (DOTS_PER_FRAME as int),
            r == (old(self)@.position() == DOTS_PER_FRAME - 1),
    {
        proof {
            reveal(PpuModel::step);
        }
        self.start_line(bus);
        self.dots += 1;

        if self.dots == DOTS_PER_SCANLINE {
            if self.scanlines <= 239 {
                self.finish_scanline(fb, bus);
            }
            self.scanlines += 1;
            self.dots = 0;

            if self.scanlines >= NUM_SCANLINES {
                self.prepare_next_frame(bus);
                return true;
            }
        }
        self.handle_blank(bus);
        false
    }

    /// Draws the scanline that just ended and chooses the sprites of the
    /// next one.
    fn finish_scanline<T: FrameBuffer>(&mut self, fb: &mut T, bus: &mut Bus)
        requires
            0x2000 <= old(self)@.nametable_addr < 0x3000,
            old(bus).wf(),
            old(self)@.scanlines <= 239,
        ensures
            final(bus).wf(),
            final(fb).canvas().len() == old(fb).canvas().len(),
            (final(self)@, final(bus)@, final(fb).canvas()) == old(self)@.scanline_done(
                old(bus)@,
                old(fb).canvas(),
            ),
            0x2000 <= final(self)@.nametable_addr < 0x3000,
            final(self)@.sprites.len() <= 8,
            final(self)@.scanlines == old(self)@.scanlines,
            final(self)@.dots == old(self)@.dots,
    {
        proof {
            reveal(PpuModel::scanline_done);
        }
        self.draw_scanline(fb, bus);
        self.sprite_evaluation(self.scanlines + 1, bus);
    }

    /// At the first dot of a scanline, takes the horizontal scroll over
    /// from the registers.
    fn start_line(&mut self, bus: &Bus)
        requires
            0x2000 <= old(self)@.nametable_addr < 0x3000,
        ensures
            final(self)@ == old(self)@.line_started(bus@),
            0x2000 <= final(self)@.nametable_addr < 0x3000,
            final(self)@.scanlines == old(self)@.scanlines,
            final(self)@.dots == old(self)@.dots,
            final(self)@.sprites == old(self)@.sprites,
    {
        proof {
            reveal(PpuModel::line_started);
        }
        if self.dots == 0 {
            self.x_scroll = bus.ppu_get_registers().fine_x;
            proof {
                lemma_nametable_addr(self.nametable_addr, self.x_scroll / 8, true);
            }
            let mut nt: u16 = self.nametable_addr;
            set_bits16(&mut nt, 4, 0, self.x_scroll / 8);
            proof {
                lemma_nametable_addr(nt, 0, bit8(bus@.regs.ppuctrl, 0));
            }
            set_bit16(&mut nt, 10, get_bit8(bus.ppu_get_registers().ppuctrl, 0));
            self.nametable_addr = nt;
        }
    }

    /// Sets the flag of vertical blank and raises the interrupt at dot 1
    /// of scanline 241, and clears the flags at dot 1 of scanline 261.
    fn handle_blank(&mut self, bus: &mut Bus)
        requires
            old(bus).wf(),
        ensures
            final(bus).wf(),
            (final(self)@, final(bus)@) == old(self)@.blank_handled(old(bus)@),
            final(self)@.scanlines == old(self)@.scanlines,
            final(self)@.dots == old(self)@.dots,
            final(self)@.sprites == old(self)@.sprites,
            final(self)@.nametable_addr == old(self)@.nametable_addr,
    {
        proof {
            reveal(PpuModel::blank_handled);
        }
        if self.scanlines == 241 && self.dots == 1 {
            let mut regs = *bus.ppu_get_registers();
            regs.ppustatus = modify_field(regs.ppustatus, 1, STATUS_VBLANK_SHIFT, 1);
            bus.ppu_set_registers(regs);
            self.generated_interrupt = field_is_set(regs.ppuctrl, 1, CTRL_NMI_ENABLE_SHIFT);
        } else if self.scanlines == 261 && self.dots == 1 {
            let mut regs = *bus.ppu_get_registers();
            regs.ppustatus = modify_field(regs.ppustatus, 1, STATUS_VBLANK_SHIFT, 0);
            regs.ppustatus = modify_field(regs.ppustatus, 1, STATUS_SPRITE0_HIT_SHIFT, 0);
            bus.ppu_set_registers(regs);
        }
    }

    /// Says whether the PPU raised an interrupt, and takes it.
    pub fn generated_interrupt(&mut self) -> (r: bool)
        ensures
            r == old(self)@.generated_interrupt,
            final(self)@ == (PpuModel { generated_interrupt: false, ..old(self)@ }),
    {
        let res = self.generated_interrupt;
        if self.generated_interrupt {
            self.generated_interrupt = false;
        }
        res
    }

    /// The height of the sprites that PPUCTRL selects.
    fn sprite_height(bus: &Bus) -> (r: usize)
        ensures
            r == bus@.regs.sprite_height(),
            r == 8 || r == 16,
    {
        if field_is_set(bus.ppu_get_registers().ppuctrl, 1, CTRL_SPRITE_SIZE_SHIFT) {
            16
        } else {
            8
        }
    }

    /// Chooses the sprites of the scanline `next_scanline`: the first eight
    /// of object attribute memory whose rows hold it.
    fn sprite_evaluation(&mut self, next_scanline: usize, bus: &Bus)
        requires
            bus.wf(),
            next_scanline <= 240,
        ensures
            final(self)@ == (PpuModel {
                sprites: sprites_chosen_from(
                    bus@.oam,
                    bus@.regs.sprite_height(),
                    next_scanline as int,
                    0,
                    Seq::empty(),
                ),
                ..old(self)@
            }),
            final(self)@.sprites.len() <= 8,
    {
        self.secondary_oam.clear();
        let oam = bus.oam();
        let height = Self::sprite_height(bus);
        let mut i: usize = 0;
        while i < 64
            invariant
                i <= 64,
                oam@ == bus@.oam,
                oam@.len() == 256,
                self.secondary_oam@.len() <= 8,
                self@ == (PpuModel { sprites: self.secondary_oam@, ..old(self)@ }),
                height == bus@.regs.sprite_height(),
                sprites_chosen_from(
                    oam@,
                    height as int,
                    next_scanline as int,
                    i as int,
                    self.secondary_oam@,
                ) == sprites_chosen_from(
                    oam@,
                    height as int,
                    next_scanline as int,
                    0,
                    Seq::empty(),
                ),
            decreases 64 - i,
        {
            let y_coord = oam[4 * i] as usize;
            if self.secondary_oam.len() < SPRITES_PER_SCANLINE && y_coord <= next_scanline
                && next_scanline < y_coord + height {
                let sprite = OAMSprite {
                    y_pixel_coord: oam[4 * i],
                    tile_idx: oam[4 * i + 1],
                    attribs: oam[4 * i + 2],
                    x_pixel_coord: oam[4 * i + 3],
                    sprite_0: i == 0,
                };
                assert(sprite == sprite_at(oam@, i as int));
                self.secondary_oam.push(sprite);
            }
            i += 1;
        }
    }

    /// Sets the PPU up for the next frame.
    fn prepare_next_frame(&mut self, bus: &mut Bus)
        requires
            old(bus).wf(),
        ensures
            final(bus).wf(),
            (final(self)@, final(bus)@) == crate::ppu_model::next_frame(old(self)@, old(bus)@),
            0x2000 <= final(self)@.nametable_addr < 0x3000,
            final(self)@.scanlines == 0,
            final(self)@.dots == old(self)@.dots,
            final(self)@.sprites == old(self)@.sprites,
    {
        proof {
            reveal(crate::ppu_model::next_frame);
        }
        self.scanlines = 0;
        self.y_scroll = bus.ppu_get_registers().fine_y;
        self.x_scroll = bus.ppu_get_registers().fine_x;
        let nametable_start_idx: usize = ((self.y_scroll as usize) / 8) * 32 + (
        self.x_scroll as usize) / 8;
        self.nametable_addr = (bus.ppu_get_nametable_base_addr() + nametable_start_idx) as u16;
        let mut regs = *bus.ppu_get_registers();
        regs.ppuctrl = modify_field(regs.ppuctrl, 3, 0, 0);
        bus.ppu_set_registers(regs);
    }

    /// The colour of entry `idx` of palette `num`.
    fn color_of(bus: &Bus, num: u8, idx: u8) -> (r: Rgb)
        requires
            bus.wf(),
            num < 8,
            idx < 4,
        ensures
            r == palette_color(bus@.palette, num, idx),
    {
        match bus.palette().get_color_by_idx(num, idx) {
            Ok(color) => color,
            Err(_) => Rgb { r: 0, g: 0, b: 0 },
        }
    }

    /// Lays the sprites of the scanline over the pixel at column `x` of
    /// scanline `y`.
    fn draw_sprites(
        &self,
        bus: &Bus,
        x: usize,
        y: usize,
        bg_color: Rgb,
        bg_transparent: bool,
        hit: bool,
    ) -> (r: PixelState)
        requires
            bus.wf(),
            x < 256,
            y < 240,
        ensures
            r == sprites_applied(
                bus@,
                self@.sprites,
                self@.sprites.len() as int,
                x as int,
                y as int,
                bg_color,
                bg_transparent,
                PixelState { color: bg_color, hit },
            ),
    {
        let mut acc = PixelState { color: bg_color, hit };
        let mut j: usize = self.secondary_oam.len();
        while j > 0
            invariant
                j <= self.secondary_oam@.len(),
                bus.wf(),
                x < 256,
                y < 240,
                sprites_applied(
                    bus@,
                    self@.sprites,
                    j as int,
                    x as int,
                    y as int,
                    bg_color,
                    bg_transparent,
                    acc,
                ) == sprites_applied(
                    bus@,
                    self@.sprites,
                    self@.sprites.len() as int,
                    x as int,
                    y as int,
                    bg_color,
                    bg_transparent,
                    PixelState { color: bg_color, hit },
                ),
            decreases j,
        {
            j -= 1;
            let sprite = self.secondary_oam[j];
            acc = Self::draw_sprite(bus, sprite, x, y, bg_color, bg_transparent, acc);
        }
        acc
    }

    /// Lays one sprite over the pixel at column `x` of scanline `y`.
    fn draw_sprite(
        bus: &Bus,
        sprite: OAMSprite,
        x: usize,
        y: usize,
        bg_color: Rgb,
        bg_transparent: bool,
        acc: PixelState,
    ) -> (r: PixelState)
        requires
            bus.wf(),
            x < 256,
            y < 240,
        ensures
            r == sprite_applied(bus@, sprite, x as int, y as int, bg_color, bg_transparent, acc),
    {
        let sx = sprite.x_pixel_coord as usize;
        let sy = sprite.y_pixel_coord as usize;
        let limit: usize = if sx + 8 > 255 { 255 } else { sx + 8 };
        let height = Self::sprite_height(bus);
        if !(sx <= x && x < limit && sy <= y && y < sy + height) {
            return acc;
        }
        let row: usize = if field_is_set(sprite.attribs, 1, 7) {
            height - 1 - (y - sy)
        } else {
            y - sy
        };
        let sprite_data = if height == 16 {
            bus.ppu_get_pattern_at(
                (sprite.tile_idx % 2) as usize * 0x1000,
                sprite.tile_idx - sprite.tile_idx % 2 + (row / 8) as u8,
            )
        } else {
            bus.ppu_get_pattern_entry(sprite.tile_idx, false)
        };
        let sprite_palette_idx = Self::compute_palette_idx(
            sprite_data,
            (x - sx) as u8,
            (row % 8) as u8,
            field_is_set(sprite.attribs, 1, 6),
            false,
        );
        if sprite_palette_idx == 0 {
            return acc;
        }
        proof {
            lemma_two_bits(sprite.attribs);
        }
        let sprite_palette_num: u8 = read_field(sprite.attribs, 3, 0) + 4;
        let sprite_color = Self::color_of(bus, sprite_palette_num, sprite_palette_idx);
        let hit = acc.hit || (sprite.sprite_0 && !bg_transparent);
        if field_is_set(sprite.attribs, 1, 5) && !bg_transparent {
            PixelState { color: bg_color, hit }
        } else {
            PixelState { color: sprite_color, hit }
        }
    }

    /// Draws the scanline that just ended into the frame buffer, and moves
    /// the nametable address on to the next one.
    pub fn draw_scanline<T: FrameBuffer>(&mut self, fb: &mut T, bus: &mut Bus)
        requires
            0x2000 <= old(self)@.nametable_addr < 0x3000,
            old(bus).wf(),
            old(self)@.scanlines <= 239,
        ensures
            final(bus).wf(),
            final(fb).canvas().len() == old(fb).canvas().len(),
            ({
                let line = old(self)@.line_drawn(old(bus)@, old(fb).canvas());
                &&& final(fb).canvas() == line.pixels
                &&& final(self)@ == (PpuModel {
                    nametable_addr: advanced_y(
                        line.nametable_addr,
                        old(self)@.y_scroll,
                        old(self)@.scanlines as int,
                        coarse_y(old(self)@.nametable_addr),
                    ),
                    ..old(self)@
                })
                &&& final(bus)@ == if line.hit {
                    BusModel {
                        regs: PPURegisters {
                            ppustatus: flag_set(
                                old(bus)@.regs.ppustatus,
                                STATUS_SPRITE0_HIT_SHIFT,
                            ),
                            ..old(bus)@.regs
                        },
                        ..old(bus)@
                    }
                } else {
                    old(bus)@
                }
            }),
            0x2000 <= final(self)@.nametable_addr < 0x3000,
    {
        let pixel_space_y = self.scanlines;
        let (_, coarse_y) = self.get_coarse_coords();
        proof {
            reveal(PpuModel::line_drawn);
            lemma_nametable_addr(self.nametable_addr, 0, true);
        }
        let mut fine_x_wrapped: u8 = self.x_scroll % 8;
        let fine_y_wrapped: u8 = self.y_scroll % 8;
        let mut hit = false;
        let mut pixel_space_x: usize = 0;
        while pixel_space_x < VISIBLE_DOTS_PER_SCANLINE
            invariant
                pixel_space_x <= 256,
                pixel_space_y == old(self)@.scanlines,
                pixel_space_y <= 239,
                coarse_y == crate::ppu_model::coarse_y(old(self)@.nametable_addr),
                coarse_y <= 31,
                fine_y_wrapped == old(self)@.y_scroll % 8,
                fine_x_wrapped <= 7,
                bus.wf(),
                bus@ == old(bus)@,
                fb.canvas().len() == old(fb).canvas().len(),
                0x2000 <= self.nametable_addr < 0x3000,
                self@ == (PpuModel { nametable_addr: self.nametable_addr, ..old(self)@ }),
                pixels_drawn_from(
                    bus@,
                    self@.sprites,
                    pixel_space_y as int,
                    fine_y_wrapped,
                    coarse_y,
                    LineState {
                        nametable_addr: self.nametable_addr,
                        fine_x: fine_x_wrapped,
                        pixels: fb.canvas(),
                        hit,
                    },
                    pixel_space_x as int,
                ) == old(self)@.line_drawn(old(bus)@, old(fb).canvas()),
            decreases 256 - pixel_space_x,
        {
            let ghost before = LineState {
                nametable_addr: self.nametable_addr,
                fine_x: fine_x_wrapped,
                pixels: fb.canvas(),
                hit,
            };
            proof {
                lemma_nametable_addr(self.nametable_addr, 0, true);
            }
            let (coarse_x, _) = self.get_coarse_coords();
            let attrib_table_addr: u16 = 0x23C0u16 | (self.nametable_addr & 0x0C00u16) | ((
            self.nametable_addr >> 4u16) & 0x38u16) | ((self.nametable_addr >> 2u16) & 0x07u16);
            let attrib_table_val = match bus.ppu_read_nametable(attrib_table_addr as usize) {
                Ok(b) => b,
                Err(_) => 0,
            };
            let pt_idx = match bus.ppu_read_nametable(self.nametable_addr as usize) {
                Ok(b) => b,
                Err(_) => 0,
            };
            let palette_num_bg = Self::compute_bg_palette_num(attrib_table_val, coarse_x, coarse_y);
            let tile = bus.ppu_get_pattern_entry(pt_idx, true);
            let palette_idx_bg = Self::compute_bg_palette_idx(
                tile,
                fine_x_wrapped,
                fine_y_wrapped + pixel_space_y as u8,
            );
            let bg_color = Self::color_of(bus, palette_num_bg, palette_idx_bg);
            let bg_pixel_transparent = bus.palette().is_entry_transparent(
                palette_num_bg,
                palette_idx_bg,
            );
            let px = self.draw_sprites(
                bus,
                pixel_space_x,
                pixel_space_y,
                bg_color,
                bg_pixel_transparent,
                hit,
            );
            fb.plot_pixel(pixel_space_x, pixel_space_y, px.color);
            hit = px.hit;

            fine_x_wrapped += 1;
            if fine_x_wrapped > 7 {
                fine_x_wrapped = 0;
                let mut nt: u16 = self.nametable_addr;
                if coarse_x == 31 {
                    set_bits16(&mut nt, 4, 0, 0);
                    proof {
                        lemma_nametable_addr(nt, 0, !bit16(nt, 10));
                    }
                    let flipped = !get_bit16(nt, 10);
                    set_bit16(&mut nt, 10, flipped);
                } else {
                    set_bits16(&mut nt, 4, 0, coarse_x + 1);
                }
                self.nametable_addr = nt;
            }
            proof {
                lemma_nametable_addr(before.nametable_addr, (coarse_x + 1) as u8, true);
                assert(LineState {
                    nametable_addr: self.nametable_addr,
                    fine_x: fine_x_wrapped,
                    pixels: fb.canvas(),
                    hit,
                } == pixel_drawn(
                    bus@,
                    self@.sprites,
                    pixel_space_y as int,
                    fine_y_wrapped,
                    coarse_y,
                    before,
                    pixel_space_x as int,
                ));
            }
            pixel_space_x += 1;
        }
        if (self.y_scroll as usize + pixel_space_y) % 8 == 7 {
            let mut nt: u16 = self.nametable_addr;
            proof {
                lemma_nametable_addr(nt, 0, true);
                lemma_nametable_addr(nt, (coarse_y + 1) as u8, true);
            }
            if coarse_y == 29 {
                set_bits16(&mut nt, 9, 5, 0);
                proof {
                    lemma_nametable_addr(nt, 0, !bit16(nt, 11));
                }
                let flipped = !get_bit16(nt, 11);
                set_bit16(&mut nt, 11, flipped);
            } else if coarse_y == 31 {
                set_bits16(&mut nt, 9, 5, 0);
            } else {
                set_bits16(&mut nt, 9, 5, coarse_y + 1);
            }
            self.nametable_addr = nt;
        }
        if hit {
            let mut regs = *bus.ppu_get_registers();
            regs.ppustatus = modify_field(regs.ppustatus, 1, STATUS_SPRITE0_HIT_SHIFT, 1);
            bus.ppu_set_registers(regs);
        }
    }

    /// The column and the row of the tile that the nametable address
    /// points at.
    fn get_coarse_coords(&self) -> (r: (u8, u8))
        ensures
            r.0 == coarse_x(self@.nametable_addr),
            r.1 == coarse_y(self@.nametable_addr),
    {
        let coarse_y = get_bits16(self.nametable_addr, 9, 5);
        let coarse_x = get_bits16(self.nametable_addr, 4, 0);
        (coarse_x, coarse_y)
    }

    /// The pixel of a pattern at column `x_coord` and row `y_coord`: a
    /// number from 0 to 3.
    pub fn compute_palette_idx(
        tile_data: &[u8],
        x_coord: u8,
        y_coord: u8,
        flip_x: bool,
        flip_y: bool,
    ) -> (r: u8)
        requires
            tile_data@.len() == 16,
            x_coord <= 7,
        ensures
            r == pattern_pixel(tile_data@, x_coord, y_coord, flip_x, flip_y),
            r <= 3,
    {
        let bit_idx: u8 = if flip_x { x_coord } else { 7 - x_coord };
        let y_tile_idx: u8 = if flip_y { 7 - (y_coord % 8) } else { y_coord % 8 };
        let low_bit: u8 = if get_bit8(tile_data[y_tile_idx as usize], bit_idx) { 1 } else { 0 };
        let high_bit: u8 = if get_bit8(tile_data[(y_tile_idx + 8) as usize], bit_idx) {
            2
        } else {
            0
        };
        low_bit + high_bit
    }

    /// The pixel of a background pattern, which is never flipped.
    pub fn compute_bg_palette_idx(tile_data: &[u8], x_coord: u8, y_coord: u8) -> (r: u8)
        requires
            tile_data@.len() == 16,
            x_coord <= 7,
        ensures
            r == pattern_pixel(tile_data@, x_coord, y_coord, false, false),
            r <= 3,
    {
        Self::compute_palette_idx(tile_data, x_coord, y_coord, false, false)
    }

    /// The background palette of the tile at column `coarse_x` and row
    /// `coarse_y`, from the attribute byte of its block.
    pub fn compute_bg_palette_num(attrib_value: u8, coarse_x: u8, coarse_y: u8) -> (r: u8)
        ensures
            r == bg_palette_num(attrib_value, coarse_x, coarse_y),
            r <= 3,
    {
        proof {
            lemma_two_bits(attrib_value);
        }
        match (get_bit8(coarse_y, 1), get_bit8(coarse_x, 1)) {
            (false, false) => get_bits8(attrib_value, 1, 0),
            (false, true) => get_bits8(attrib_value, 3, 2),
            (true, false) => get_bits8(attrib_value, 5, 4),
            (true, true) => get_bits8(attrib_value, 7, 6),
        }
    }
}

} // verus!
