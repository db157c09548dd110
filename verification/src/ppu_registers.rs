//! The register file through which the CPU talks to the PPU, with the
//! latch and shadow state that double writes need.

use vstd::prelude::*;
use crate::bits::{field_value, with_field};

verus! {

/// The registers of the PPU and the state derived from writes to them.
#[derive(Clone, Copy, Debug, PartialEq, Eq, Structural)]
pub struct PPURegisters {
    pub ppuctrl: u8,
    pub ppumask: u8,
    pub ppustatus: u8,
    /// The VRAM address that PPUDATA reads and writes.
    pub ppuaddr: u16,
    /// The buffer that PPUDATA reads below palette memory go through.
    pub ppudata: u8,
    /// The latch that PPUSCROLL and PPUADDR share: clear before the first
    /// write of a pair, set before the second.
    pub write_latch: bool,
    pub fine_x: u8,
    pub fine_y: u8,
}

/// The nametable select of PPUCTRL: two bits at bit 0.
pub const CTRL_NTABLE_SHIFT: u8 = 0;

/// The VRAM increment select of PPUCTRL.
pub const CTRL_VRAM_INC_SHIFT: u8 = 2;

/// The sprite pattern table select of PPUCTRL.
pub const CTRL_SPTNTABLE_SHIFT: u8 = 3;

/// The background pattern table select of PPUCTRL.
pub const CTRL_BPTNTABLE_SHIFT: u8 = 4;

/// The sprite size select of PPUCTRL: eight by sixteen where it is set.
pub const CTRL_SPRITE_SIZE_SHIFT: u8 = 5;

/// The interrupt enable of PPUCTRL.
pub const CTRL_NMI_ENABLE_SHIFT: u8 = 7;

/// The sprite-0-hit flag of PPUSTATUS.
pub const STATUS_SPRITE0_HIT_SHIFT: u8 = 6;

/// The vertical-blank flag of PPUSTATUS.
pub const STATUS_VBLANK_SHIFT: u8 = 7;

/// Whether the one-bit flag at `shift` is set in `reg`.
pub open spec fn flag(reg: u8, shift: u8) -> bool {
    reg & (1u8 << shift) != 0
}

/// `reg` with the one-bit flag at `shift` set.
pub open spec fn flag_set(reg: u8, shift: u8) -> u8 {
    with_field(reg, 1, shift, 1)
}

/// `reg` with the one-bit flag at `shift` cleared.
pub open spec fn flag_cleared(reg: u8, shift: u8) -> u8 {
    with_field(reg, 1, shift, 0)
}

/// A flag that was set reads as set, one that was cleared as clear, and no
/// other flag of the register moves.
pub proof fn lemma_flag_update(reg: u8, shift: u8, other: u8)
    requires
        shift < 8,
        other < 8,
    ensures
        flag(flag_set(reg, shift), shift),
        !flag(flag_cleared(reg, shift), shift),
        other != shift ==> flag(flag_set(reg, shift), other) == flag(reg, other),
        other != shift ==> flag(flag_cleared(reg, shift), other) == flag(reg, other),
{
    assert(((reg & !(1u8 << shift)) | ((1u8 & 1u8) << shift)) & (1u8 << shift) != 0)
        by (bit_vector)
        requires
            shift < 8,
    ;
    assert(!(((reg & !(1u8 << shift)) | ((0u8 & 1u8) << shift)) & (1u8 << shift) != 0))
        by (bit_vector)
        requires
            shift < 8,
    ;
    assert(other != shift ==> ((((reg & !(1u8 << shift)) | ((1u8 & 1u8) << shift)) & (1u8
        << other) != 0) == (reg & (1u8 << other) != 0))) by (bit_vector)
        requires
            shift < 8,
            other < 8,
    ;
    assert(other != shift ==> ((((reg & !(1u8 << shift)) | ((0u8 & 1u8) << shift)) & (1u8
        << other) != 0) == (reg & (1u8 << other) != 0))) by (bit_vector)
        requires
            shift < 8,
            other < 8,
    ;
}

impl PPURegisters {
    /// The registers at power-up: all clear.
    pub open spec fn initial() -> PPURegisters {
        PPURegisters {
            ppuctrl: 0,
            ppumask: 0,
            ppustatus: 0,
            ppuaddr: 0,
            ppudata: 0,
            write_latch: false,
            fine_x: 0,
            fine_y: 0,
        }
    }

    /// How far PPUDATA moves the VRAM address: 32 where PPUCTRL says so,
    /// else 1.
    pub open spec fn vram_step(&self) -> u16 {
        if flag(self.ppuctrl, CTRL_VRAM_INC_SHIFT) {
            32
        } else {
            1
        }
    }

    /// The height of the sprites that PPUCTRL selects.
    pub open spec fn sprite_height(&self) -> int {
        if flag(self.ppuctrl, CTRL_SPRITE_SIZE_SHIFT) {
            16
        } else {
            8
        }
    }

    /// The base address of the nametable that PPUCTRL selects.
    pub open spec fn nametable_base(&self) -> int {
        0x2000 + 0x400 * field_value(self.ppuctrl, 3, CTRL_NTABLE_SHIFT)
    }
}

impl Default for PPURegisters {
    fn default() -> (r: Self)
        ensures
            r == PPURegisters::initial(),
    {
        Self {
            ppuctrl: 0,
            ppumask: 0,
            ppustatus: 0,
            ppuaddr: 0,
            ppudata: 0,
            write_latch: false,
            fine_x: 0,
            fine_y: 0,
        }
    }
}

} // verus!
