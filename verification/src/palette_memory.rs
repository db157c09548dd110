//! Palette memory: 32 colour indices, of which four cells are mirrors.

use vstd::prelude::*;
use crate::error::NesError;
use crate::palette::{lookup_palette_color, system_color, Rgb, SYSTEM_COLORS};

verus! {

/// The first address of palette memory on the PPU bus.
pub const PALETTE_BASE: usize = 0x3F00;

/// Whether `addr` is an address of palette memory.
pub open spec fn is_palette_addr(addr: int) -> bool {
    0x3F00 <= addr <= 0x3F1F
}

/// The cell that a write to `addr` lands in: the first entry of each sprite
/// palette is the first entry of the matching background palette.
pub open spec fn palette_write_cell(addr: int) -> int {
    let offset = addr - 0x3F00;
    if offset >= 0x10 && offset % 4 == 0 {
        offset - 0x10
    } else {
        offset
    }
}

/// The cell that a read of `addr` comes from: every first entry of a palette
/// reads as the universal background colour.
pub open spec fn palette_read_cell(addr: int) -> int {
    if addr % 4 == 0 {
        0
    } else {
        addr - 0x3F00
    }
}

/// The cells after a write of `val` to `addr`.
pub open spec fn palette_after_write(cells: Seq<u8>, addr: int, val: u8) -> Seq<u8> {
    cells.update(palette_write_cell(addr), val)
}

pub struct PaletteMemory {
    memory: [u8; 32],
}

impl PaletteMemory {
    /// The 32 cells.
    pub closed spec fn view(&self) -> Seq<u8> {
        self.memory@
    }

    pub fn new() -> (r: Self)
        ensures
            r@.len() == 32,
            forall|i: int| 0 <= i < 32 ==> r@[i] == 0,
    {
        Self { memory: [0u8; 32] }
    }

    /// The number of cells never changes.
    pub proof fn lemma_len(&self)
        ensures
            self@.len() == 32,
    {
    }

    /// Writes `val` to the cell that `addr` names.
    pub fn set_entry(&mut self, addr: usize, val: u8)
        requires
            is_palette_addr(addr as int),
        ensures
            final(self)@ == palette_after_write(old(self)@, addr as int, val),
            final(self)@.len() == 32,
    {
        let offset: usize = addr - PALETTE_BASE;
        let cell: usize = if offset >= 0x10 && offset % 4 == 0 {
            offset - 0x10
        } else {
            offset
        };
        self.memory[cell] = val;
    }

    /// Reads the cell that `addr` names.
    pub fn get_entry(&self, addr: usize) -> (r: u8)
        requires
            is_palette_addr(addr as int) || addr % 4 == 0,
        ensures
            r == self@[palette_read_cell(addr as int)],
    {
        if addr % 4 == 0 {
            self.memory[0]
        } else {
            self.memory[addr - PALETTE_BASE]
        }
    }

    /// Whether entry `idx` of palette `palette_num` shows what lies behind
    /// it: the first entry of every palette does.
    pub fn is_entry_transparent(&self, palette_num: u8, idx: u8) -> (r: bool)
        requires
            palette_num * 4 + idx <= u8::MAX,
        ensures
            r == (idx % 4 == 0),
            idx < 4 ==> r == (idx == 0),
    {
        let palette_idx: u8 = (palette_num * 4) + idx;
        palette_idx % 4 == 0
    }

    /// The colour index that entry `idx` of palette `palette_num` reads as.
    pub open spec fn color_index(&self, palette_num: u8, idx: u8) -> u8 {
        self@[palette_read_cell(0x3F00 + palette_num * 4 + idx)]
    }

    /// The colour of entry `idx` of palette `palette_num`, looked up in the
    /// system palette.
    pub fn get_color_by_idx(&self, palette_num: u8, idx: u8) -> (r: Result<Rgb, NesError>)
        requires
            palette_num < 8,
            idx < 4,
        ensures
            self.color_index(palette_num, idx) < SYSTEM_COLORS ==> r == Ok::<Rgb, NesError>(
                system_color(self.color_index(palette_num, idx)),
            ),
            self.color_index(palette_num, idx) >= SYSTEM_COLORS ==> r == Err::<Rgb, NesError>(
                NesError::BadColor,
            ),
    {
        let addr: usize = PALETTE_BASE + (palette_num as usize * 4) + idx as usize;
        let color_idx = self.get_entry(addr);
        lookup_palette_color(color_idx)
    }
}

/// A write through a sprite palette's first entry and a write through the
/// matching background entry land in the same cell, and a read of either
/// address comes from one cell too.
pub proof fn lemma_palette_mirror(cells: Seq<u8>, i: int, val: u8)
    requires
        0 <= i < 4,
    ensures
        palette_after_write(cells, 0x3F10 + 4 * i, val) == palette_after_write(
            cells,
            0x3F00 + 4 * i,
            val,
        ),
        palette_write_cell(0x3F10 + 4 * i) == palette_write_cell(0x3F00 + 4 * i),
        palette_read_cell(0x3F10 + 4 * i) == palette_read_cell(0x3F00 + 4 * i),
{
}

} // verus!
