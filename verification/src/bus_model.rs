//! The mathematical model of the bus: what every read and write on the
//! CPU's address space returns and changes.

use vstd::prelude::*;
use crate::bits::bit8;
use crate::cartridge_data::{cartridge_wf, CartridgeModel, ChrKind};
use crate::controller::Controller;
use crate::error::NesError;
use crate::mappers::mapper000::{mirroring_of, prg_value_of};
use crate::mappers::MirrorMode;
use crate::palette_memory::{palette_after_write, palette_read_cell};
use crate::ppu_registers::{flag, flag_cleared, PPURegisters, STATUS_VBLANK_SHIFT};

verus! {

/// Everything that the bus owns, as mathematical values.
pub struct BusModel {
    pub cartridge: CartridgeModel,
    /// 2 KiB of CPU RAM.
    pub cpu_ram: Seq<u8>,
    /// 2 KiB of nametable RAM.
    pub ppu_ram: Seq<u8>,
    /// 256 bytes of object attribute memory.
    pub oam: Seq<u8>,
    pub oam_addr: u8,
    pub pending_dma: bool,
    pub dma_page_addr: usize,
    pub regs: PPURegisters,
    /// The 32 cells of palette memory.
    pub palette: Seq<u8>,
    pub controller: Controller,
}

/// The cell of nametable RAM that the PPU address `addr` names. With
/// vertical mirroring the tables 0 and 2 are the first KiB and 1 and 3 the
/// second; with horizontal mirroring 0 and 1 are the first, 2 and 3 the
/// second.
pub open spec fn nametable_index(mode: MirrorMode, addr: int) -> int
    recommends
        0x2000 <= addr < 0x3000,
{
    let table = (addr - 0x2000) / 0x400;
    let offset = (addr - 0x2000) % 0x400;
    let bank = match mode {
        MirrorMode::VERT => table % 2,
        MirrorMode::HORZ => table / 2,
    };
    bank * 0x400 + offset
}

/// The register of the PPU that the CPU address `addr` names: the eight
/// registers repeat through `0x2000..0x4000`.
pub open spec fn ppu_register_of(addr: int) -> int
    recommends
        0x2000 <= addr < 0x4000,
{
    (addr - 0x2000) % 8
}

/// The low byte and the high byte make a word.
pub open spec fn word(lo: u8, hi: u8) -> u16 {
    (lo + 256 * hi) as u16
}

impl BusModel {
    /// The sizes of the memories are fixed, and the parts are well formed.
    pub open spec fn wf(self) -> bool {
        &&& cartridge_wf(self.cartridge)
        &&& self.cpu_ram.len() == 2048
        &&& self.ppu_ram.len() == 2048
        &&& self.oam.len() == 256
        &&& self.palette.len() == 32
        &&& self.controller.wf()
        &&& self.dma_page_addr <= 0xFF00
    }

    /// The mirroring that the cartridge asks for.
    pub open spec fn mirroring(self) -> MirrorMode {
        mirroring_of(self.cartridge)
    }

    /// The byte of nametable RAM at the PPU address `addr`.
    pub open spec fn nametable_byte(self, addr: int) -> u8
        recommends
            0x2000 <= addr < 0x3000,
    {
        self.ppu_ram[nametable_index(self.mirroring(), addr)]
    }

    /// The state with the VRAM address moved on by one access.
    pub open spec fn vram_advanced(self) -> BusModel {
        BusModel {
            regs: PPURegisters {
                ppuaddr: (self.regs.ppuaddr + self.regs.vram_step()) as u16,
                ..self.regs
            },
            ..self
        }
    }

    /// What a read of PPUDATA returns: the buffer below palette memory, the
    /// palette cell itself in palette memory.
    pub open spec fn ppu_data_value(self) -> Result<u8, NesError> {
        let a = self.regs.ppuaddr as int;
        if a < 0x3000 {
            Ok(self.regs.ppudata)
        } else if 0x3F00 <= a <= 0x3FFF {
            Ok(self.palette[palette_read_cell(0x3F00 + a % 0x20)])
        } else {
            Err(NesError::BadAddress)
        }
    }

    /// The state after a read of PPUDATA: the buffer refilled from the
    /// address, and the address moved on. A read that fails changes nothing.
    pub open spec fn after_ppu_data_read(self) -> BusModel {
        let a = self.regs.ppuaddr as int;
        if a < 0x2000 {
            (BusModel {
                regs: PPURegisters { ppudata: self.cartridge.chr[a], ..self.regs },
                ..self
            }).vram_advanced()
        } else if a < 0x3000 {
            (BusModel {
                regs: PPURegisters { ppudata: self.nametable_byte(a), ..self.regs },
                ..self
            }).vram_advanced()
        } else if 0x3F00 <= a <= 0x3FFF {
            self.vram_advanced()
        } else {
            self
        }
    }

    /// Whether a write to PPUDATA finds a target.
    pub open spec fn ppu_data_writable(self) -> bool {
        let a = self.regs.ppuaddr as int;
        a < 0x3000 || 0x3F00 <= a <= 0x3FFF
    }

    /// The state after a write of `value` to PPUDATA. A write to character
    /// ROM is dropped and leaves the address where it is.
    pub open spec fn after_ppu_data_write(self, value: u8) -> BusModel {
        let a = self.regs.ppuaddr as int;
        if a < 0x2000 {
            if self.cartridge.chr_kind == ChrKind::RAM {
                (BusModel {
                    cartridge: CartridgeModel {
                        chr: self.cartridge.chr.update(a, value),
                        ..self.cartridge
                    },
                    ..self
                }).vram_advanced()
            } else {
                self
            }
        } else if a < 0x3000 {
            (BusModel {
                ppu_ram: self.ppu_ram.update(nametable_index(self.mirroring(), a), value),
                ..self
            }).vram_advanced()
        } else if 0x3F00 <= a <= 0x3FFF {
            (BusModel {
                palette: palette_after_write(self.palette, 0x3F00 + a % 0x20, value),
                ..self
            }).vram_advanced()
        } else {
            self
        }
    }

    /// What the PPU register `reg` reads as.
    pub open spec fn register_value(self, reg: int) -> Result<u8, NesError>
        recommends
            0 <= reg < 8,
    {
        if reg == 0 {
            Ok(self.regs.ppuctrl)
        } else if reg == 1 {
            Ok(self.regs.ppumask)
        } else if reg == 2 {
            Ok(self.regs.ppustatus)
        } else if reg == 3 {
            Ok(self.oam_addr)
        } else if reg == 4 {
            Ok(self.oam[self.oam_addr as int])
        } else if reg == 7 {
            self.ppu_data_value()
        } else {
            Ok(0u8)
        }
    }

    /// The state after the CPU read the PPU register `reg`: a read of
    /// PPUSTATUS clears the vertical-blank flag and the write latch, and a
    /// read of PPUDATA moves the address on.
    pub open spec fn after_register_read(self, reg: int) -> BusModel
        recommends
            0 <= reg < 8,
    {
        if reg == 2 {
            BusModel {
                regs: PPURegisters {
                    ppustatus: flag_cleared(self.regs.ppustatus, STATUS_VBLANK_SHIFT),
                    write_latch: false,
                    ..self.regs
                },
                ..self
            }
        } else if reg == 7 {
            self.after_ppu_data_read()
        } else {
            self
        }
    }

    /// Whether a write to the PPU register `reg` finds a target.
    pub open spec fn register_writable(self, reg: int) -> bool {
        reg != 7 || self.ppu_data_writable()
    }

    /// The state after the CPU wrote `value` to the PPU register `reg`.
    pub open spec fn after_register_write(self, reg: int, value: u8) -> BusModel
        recommends
            0 <= reg < 8,
    {
        if reg == 0 {
            BusModel { regs: PPURegisters { ppuctrl: value, ..self.regs }, ..self }
        } else if reg == 1 {
            BusModel { regs: PPURegisters { ppumask: value, ..self.regs }, ..self }
        } else if reg == 2 {
            BusModel { regs: PPURegisters { ppustatus: value, ..self.regs }, ..self }
        } else if reg == 3 {
            BusModel { oam_addr: value, ..self }
        } else if reg == 4 {
            BusModel {
                oam: self.oam.update(self.oam_addr as int, value),
                oam_addr: ((self.oam_addr + 1) % 256) as u8,
                ..self
            }
        } else if reg == 5 {
            if !self.regs.write_latch {
                BusModel {
                    regs: PPURegisters { fine_x: value, write_latch: true, ..self.regs },
                    ..self
                }
            } else {
                BusModel {
                    regs: PPURegisters { fine_y: value, write_latch: false, ..self.regs },
                    ..self
                }
            }
        } else if reg == 6 {
            if !self.regs.write_latch {
                BusModel {
                    regs: PPURegisters {
                        ppuaddr: (value * 256 + self.regs.ppuaddr % 256) as u16,
                        write_latch: true,
                        ..self.regs
                    },
                    ..self
                }
            } else {
                BusModel {
                    regs: PPURegisters {
                        ppuaddr: (((self.regs.ppuaddr / 256) * 256 + value) % 0x4000) as u16,
                        write_latch: false,
                        ..self.regs
                    },
                    ..self
                }
            }
        } else {
            self.after_ppu_data_write(value)
        }
    }

    /// What a read at `addr` returns that changes nothing: the value that
    /// the CPU would see.
    #[verifier::opaque]
    pub open spec fn peek(self, addr: int) -> Result<u8, NesError> {
        if 0 <= addr < 0x2000 {
            Ok(self.cpu_ram[addr % 0x800])
        } else if 0x2000 <= addr < 0x4000 {
            self.register_value(ppu_register_of(addr))
        } else if 0x4000 <= addr <= 0x4015 || addr == 0x4017 {
            Ok(0u8)
        } else if addr == 0x4016 {
            Ok(self.controller.read_value())
        } else if 0x4020 <= addr <= 0xFFFF {
            prg_value_of(self.cartridge, addr)
        } else {
            Err(NesError::BadAddress)
        }
    }

    /// The state after the CPU read at `addr`.
    #[verifier::opaque]
    pub open spec fn after_read(self, addr: int) -> BusModel {
        if 0x2000 <= addr < 0x4000 {
            self.after_register_read(ppu_register_of(addr))
        } else if addr == 0x4016 {
            BusModel {
                controller: Controller {
                    return_bit: self.controller.next_bit(),
                    ..self.controller
                },
                ..self
            }
        } else {
            self
        }
    }

    /// What reading the two bytes at `addr` and `addr + 1` returns: the
    /// pair, or the first failure.
    pub open spec fn peek_pair(self, addr: int) -> Result<(u8, u8), NesError> {
        match self.peek(addr) {
            Ok(lo) => match self.after_read(addr).peek(addr + 1) {
                Ok(hi) => Ok((lo, hi)),
                Err(e) => Err(e),
            },
            Err(e) => Err(e),
        }
    }

    /// The state after the CPU read the two bytes at `addr` and `addr + 1`;
    /// where the first read fails the second is not made.
    pub open spec fn after_read_pair(self, addr: int) -> BusModel {
        if self.peek(addr) is Ok {
            self.after_read(addr).after_read(addr + 1)
        } else {
            self.after_read(addr)
        }
    }

    /// The sixteen bytes of pattern `idx` in the pattern table at `base`.
    pub open spec fn pattern_at(self, base: int, idx: u8) -> Seq<u8> {
        self.cartridge.chr.subrange(base + 16 * idx, base + 16 * idx + 16)
    }

    /// The sixteen bytes of pattern `idx` in the pattern table that PPUCTRL
    /// selects, for the background or for sprites.
    pub open spec fn pattern(self, idx: u8, background: bool) -> Seq<u8> {
        let shift = if background { 4u8 } else { 3u8 };
        self.pattern_at(if flag(self.regs.ppuctrl, shift) { 0x1000int } else { 0 }, idx)
    }

    /// Whether a write by the CPU at `addr` finds a target.
    #[verifier::opaque]
    pub open spec fn writable(self, addr: int) -> bool {
        ||| 0 <= addr < 0x2000
        ||| 0x2000 <= addr < 0x4000 && self.register_writable(ppu_register_of(addr))
        ||| 0x4000 <= addr <= 0x4017
        ||| 0x4020 <= addr <= 0xFFFF
    }

    /// What a write by the CPU at `addr` reports.
    pub open spec fn write_result(self, addr: int) -> Result<(), NesError> {
        if self.writable(addr) {
            Ok(())
        } else {
            Err(NesError::BadAddress)
        }
    }

    /// The state after the CPU wrote `value` at `addr`. A write that finds
    /// no target, to the audio registers or to the cartridge changes
    /// nothing.
    #[verifier::opaque]
    pub open spec fn after_write(self, addr: int, value: u8) -> BusModel {
        if 0 <= addr < 0x2000 {
            BusModel { cpu_ram: self.cpu_ram.update(addr % 0x800, value), ..self }
        } else if 0x2000 <= addr < 0x4000 {
            self.after_register_write(ppu_register_of(addr), value)
        } else if addr == 0x4014 {
            BusModel { dma_page_addr: (value * 256) as usize, pending_dma: true, ..self }
        } else if addr == 0x4016 {
            BusModel {
                controller: Controller {
                    serial: bit8(value, 0),
                    return_bit: 0,
                    ..self.controller
                },
                ..self
            }
        } else {
            self
        }
    }

    /// The byte that the transfer to object attribute memory takes from
    /// `addr`: what a read there would show, and 0 where nothing answers.
    pub open spec fn dma_source(self, addr: int) -> u8 {
        match self.peek(addr) {
            Ok(b) => b,
            Err(_) => 0u8,
        }
    }

    /// The state after the bytes `i..256` of the page were sent to
    /// OAMDATA, one after the other.
    pub open spec fn after_dma_from(self, i: int) -> BusModel
        decreases 256 - i,
    {
        if i >= 256 {
            BusModel { pending_dma: false, ..self }
        } else {
            self.after_register_write(4, self.dma_source(self.dma_page_addr + i)).after_dma_from(
                i + 1,
            )
        }
    }

    /// The state after the whole page was transferred.
    #[verifier::opaque]
    pub open spec fn after_dma(self) -> BusModel {
        self.after_dma_from(0)
    }
}

/// A byte written to CPU RAM reads back at each of the four addresses
/// that name its cell, and reading it changes nothing.
pub proof fn lemma_ram_read_after_write(m: BusModel, a: int, a2: int, b: u8)
    requires
        m.wf(),
        0 <= a < 0x2000,
        0 <= a2 < 0x2000,
        a % 0x800 == a2 % 0x800,
    ensures
        m.write_result(a) == Ok::<(), NesError>(()),
        m.after_write(a, b).peek(a2) == Ok::<u8, NesError>(b),
        m.after_write(a, b).after_read(a2) == m.after_write(a, b),
        m.after_write(a, b).wf(),
{
    reveal(BusModel::peek);
    reveal(BusModel::after_read);
    reveal(BusModel::writable);
    reveal(BusModel::after_write);
}

/// Two writes to PPUSCROLL in a row, the first with the write latch clear,
/// set the horizontal scroll to the first value and the vertical scroll to
/// the second, and leave the latch clear.
pub proof fn lemma_scroll_pair(m: BusModel, a1: int, a2: int, v1: u8, v2: u8)
    requires
        0x2000 <= a1 < 0x4000,
        0x2000 <= a2 < 0x4000,
        ppu_register_of(a1) == 5,
        ppu_register_of(a2) == 5,
        !m.regs.write_latch,
    ensures
        m.after_write(a1, v1).after_write(a2, v2).regs.fine_x == v1,
        m.after_write(a1, v1).after_write(a2, v2).regs.fine_y == v2,
        !m.after_write(a1, v1).after_write(a2, v2).regs.write_latch,
{
    reveal(BusModel::after_write);
}

/// After a read of PPUSTATUS the write latch is clear, so that the two
/// writes to PPUSCROLL that follow set the horizontal and then the
/// vertical scroll, whatever the latch was before.
pub proof fn lemma_scroll_pair_after_status_read(m: BusModel, v1: u8, v2: u8)
    ensures
        m.after_read(0x2002).after_write(0x2005, v1).after_write(0x2005, v2).regs.fine_x == v1,
        m.after_read(0x2002).after_write(0x2005, v1).after_write(0x2005, v2).regs.fine_y == v2,
{
    reveal(BusModel::after_read);
    lemma_scroll_pair(m.after_read(0x2002), 0x2005, 0x2005, v1, v2);
}

/// A read of PPUSTATUS returns the register, and clears the flag of
/// vertical blank and the write latch; no other flag moves. A second read
/// then sees the flag clear.
pub proof fn lemma_status_read(m: BusModel, a: int, other: u8)
    requires
        0x2000 <= a < 0x4000,
        ppu_register_of(a) == 2,
        other < 7,
    ensures
        m.peek(a) == Ok::<u8, NesError>(m.regs.ppustatus),
        !flag(m.after_read(a).regs.ppustatus, STATUS_VBLANK_SHIFT),
        !m.after_read(a).regs.write_latch,
        flag(m.after_read(a).regs.ppustatus, other) == flag(m.regs.ppustatus, other),
        m.after_read(a).peek(a) == Ok::<u8, NesError>(m.after_read(a).regs.ppustatus),
{
    reveal(BusModel::peek);
    reveal(BusModel::after_read);
    crate::ppu_registers::lemma_flag_update(m.regs.ppustatus, STATUS_VBLANK_SHIFT, other);
}

} // verus!
