//! The bus: the one place where an address becomes a memory cell. It owns
//! the RAMs, the PPU's register file, palette memory, the controller and
//! the cartridge's mapper, and schedules the transfer to object attribute
//! memory.

use vstd::prelude::*;
use crate::bits::{
    field_is_set, get_bit8, lemma_with_byte, modify_field, read_field, set_bits16,
};
use crate::bus_model::{nametable_index, ppu_register_of, BusModel};
use crate::cartridge_data::{parse_image, CartridgeModel, INESHeader};
use crate::controller::{Controller, InputEvent};
use crate::error::{LoadError, NesError};
use crate::mappers::mapper000::Mapper000;
use crate::mappers::{mapper_for, new_mapper, Mapper, MirrorMode};
use crate::palette_memory::PaletteMemory;
use crate::ppu_registers::{
    PPURegisters, CTRL_BPTNTABLE_SHIFT, CTRL_NTABLE_SHIFT, CTRL_SPTNTABLE_SHIFT,
    CTRL_VRAM_INC_SHIFT, STATUS_VBLANK_SHIFT,
};

verus! {

pub struct Bus {
    mapper: Mapper000,
    cpu_ram: [u8; 2048],
    ppu_ram: [u8; 2048],
    oam_ram: [u8; 256],
    oam_addr: u8,
    pending_dma: bool,
    dma_page_addr: usize,
    ppu_registers: PPURegisters,
    palette_memory: PaletteMemory,
    controller: Controller,
}

/// The bus as it is when a cartridge was just put in: all memories zero.
pub open spec fn initial_bus(cartridge: CartridgeModel) -> BusModel {
    BusModel {
        cartridge,
        cpu_ram: Seq::new(2048, |i: int| 0u8),
        ppu_ram: Seq::new(2048, |i: int| 0u8),
        oam: Seq::new(256, |i: int| 0u8),
        oam_addr: 0,
        pending_dma: false,
        dma_page_addr: 0,
        regs: PPURegisters::initial(),
        palette: Seq::new(32, |i: int| 0u8),
        controller: Controller { serial: true, input_state: 0, return_bit: 0 },
    }
}

impl Bus {
    pub closed spec fn view(&self) -> BusModel {
        BusModel {
            cartridge: self.mapper@,
            cpu_ram: self.cpu_ram@,
            ppu_ram: self.ppu_ram@,
            oam: self.oam_ram@,
            oam_addr: self.oam_addr,
            pending_dma: self.pending_dma,
            dma_page_addr: self.dma_page_addr,
            regs: self.ppu_registers,
            palette: self.palette_memory@,
            controller: self.controller,
        }
    }

    /// Whether the bus is consistent. Every function keeps it so.
    pub open spec fn wf(&self) -> bool {
        self@.wf()
    }

    /// Builds the bus around the cartridge that `image` holds.
    pub fn new(image: &[u8]) -> (r: Result<Self, LoadError>)
        ensures
            match r {
                Ok(bus) => bus.wf() && mapper_for(parse_image(image@)) == Ok::<
                    CartridgeModel,
                    LoadError,
                >(bus@.cartridge) && bus@ == initial_bus(bus@.cartridge),
                Err(e) => mapper_for(parse_image(image@)) == Err::<CartridgeModel, LoadError>(e),
            },
    {
        let mapper = match new_mapper(image) {
            Ok(m) => m,
            Err(e) => { return Err(e); },
        };
        let bus = Self {
            mapper,
            cpu_ram: [0u8; 2048],
            ppu_ram: [0u8; 2048],
            oam_ram: [0u8; 256],
            oam_addr: 0,
            pending_dma: false,
            dma_page_addr: 0,
            ppu_registers: PPURegisters::default(),
            palette_memory: PaletteMemory::new(),
            controller: Controller::new(),
        };
        proof {
            bus.palette_memory.lemma_len();
            assert(bus@.cpu_ram =~= initial_bus(bus@.cartridge).cpu_ram);
            assert(bus@.ppu_ram =~= initial_bus(bus@.cartridge).ppu_ram);
            assert(bus@.oam =~= initial_bus(bus@.cartridge).oam);
            assert(bus@.palette =~= initial_bus(bus@.cartridge).palette);
        }
        Ok(bus)
    }

    /// Whether a transfer to object attribute memory waits to be done.
    pub fn pending_dma(&self) -> (r: bool)
        ensures
            r == self@.pending_dma,
    {
        self.pending_dma
    }

    pub fn cartridge_header(&self) -> (r: &INESHeader)
        ensures
            *r == self@.cartridge.header,
    {
        self.mapper.get_header()
    }

    /// The PPU's registers.
    pub fn ppu_get_registers(&self) -> (r: &PPURegisters)
        ensures
            *r == self@.regs,
    {
        &self.ppu_registers
    }

    /// Replaces the PPU's registers.
    pub fn ppu_set_registers(&mut self, regs: PPURegisters)
        ensures
            final(self)@ == (BusModel { regs, ..old(self)@ }),
    {
        self.ppu_registers = regs;
    }

    /// Object attribute memory.
    pub fn oam(&self) -> (r: &[u8; 256])
        ensures
            r@ == self@.oam,
    {
        &self.oam_ram
    }

    /// Palette memory.
    pub fn palette(&self) -> (r: &PaletteMemory)
        ensures
            r@ == self@.palette,
    {
        &self.palette_memory
    }

    /// Hands the buttons that the host sampled to the controller.
    pub fn set_controller_state(&mut self, event: InputEvent)
        ensures
            final(self)@ == (BusModel {
                controller: Controller {
                    input_state: event.input_state,
                    ..old(self)@.controller
                },
                ..old(self)@
            }),
    {
        self.controller.set_state_from_window(event);
    }

    /// The cell of nametable RAM that the PPU address `addr` names under
    /// the cartridge's mirroring.
    pub fn translate_nametable_addr(&self, addr: u16) -> (r: usize)
        requires
            self.wf(),
            0x2000 <= addr < 0x3000,
        ensures
            r == nametable_index(self@.mirroring(), addr as int),
            r < 2048,
    {
        let rel: usize = (addr - 0x2000) as usize;
        let table: usize = rel / 0x400;
        let offset: usize = rel % 0x400;
        let bank: usize = match self.mapper.current_mirroring_mode() {
            MirrorMode::VERT => table % 2,
            MirrorMode::HORZ => table / 2,
        };
        bank * 0x400 + offset
    }

    /// Reads nametable RAM at a PPU address.
    pub fn ppu_read_nametable(&self, addr: usize) -> (r: Result<u8, NesError>)
        requires
            self.wf(),
        ensures
            0x2000 <= addr < 0x3000 ==> r == Ok::<u8, NesError>(
                self@.nametable_byte(addr as int),
            ),
            !(0x2000 <= addr < 0x3000) ==> r == Err::<u8, NesError>(NesError::BadAddress),
    {
        if addr < 0x2000 || addr >= 0x3000 {
            Err(NesError::BadAddress)
        } else {
            Ok(self.ppu_ram[self.translate_nametable_addr(addr as u16)])
        }
    }

    /// The base address of the nametable that PPUCTRL selects.
    pub fn ppu_get_nametable_base_addr(&self) -> (r: usize)
        ensures
            r == self@.regs.nametable_base(),
            r == 0x2000 || r == 0x2400 || r == 0x2800 || r == 0x2C00,
    {
        let select: u8 = read_field(self.ppu_registers.ppuctrl, 3, CTRL_NTABLE_SHIFT);
        assert(select <= 3) by {
            let v = self.ppu_registers.ppuctrl;
            assert((v & (3u8 << 0u8)) >> 0u8 <= 3) by (bit_vector);
        }
        0x2000 + 0x400 * (select as usize)
    }

    /// The sixteen bytes of pattern `idx` in the pattern table at
    /// `base_addr`, which is `0x0000` or `0x1000`.
    pub fn ppu_get_pattern_at(&self, base_addr: usize, idx: u8) -> (r: &[u8])
        requires
            self.wf(),
            base_addr == 0 || base_addr == 0x1000,
        ensures
            r@ == self@.pattern_at(base_addr as int, idx),
            r@.len() == 16,
    {
        let tile = self.mapper.chr_read_pattern(base_addr, idx).unwrap();
        assert(tile@ =~= self@.pattern_at(base_addr as int, idx));
        tile
    }

    /// The sixteen bytes of pattern `idx` in the pattern table that PPUCTRL
    /// selects for the background or for sprites.
    pub fn ppu_get_pattern_entry(&self, idx: u8, background: bool) -> (r: &[u8])
        requires
            self.wf(),
        ensures
            r@ == self@.pattern(idx, background),
            r@.len() == 16,
    {
        let shift: u8 = if background { CTRL_BPTNTABLE_SHIFT } else { CTRL_SPTNTABLE_SHIFT };
        let base_addr: usize = if field_is_set(self.ppu_registers.ppuctrl, 1, shift) {
            0x1000
        } else {
            0x0000
        };
        self.ppu_get_pattern_at(base_addr, idx)
    }

    /// Moves the VRAM address on by one access.
    fn ppu_increment_vram_ptr(&mut self)
        requires
            old(self)@.regs.ppuaddr <= 0x3FFF,
        ensures
            final(self)@ == old(self)@.vram_advanced(),
    {
        if field_is_set(self.ppu_registers.ppuctrl, 1, CTRL_VRAM_INC_SHIFT) {
            self.ppu_registers.ppuaddr += 32;
        } else {
            self.ppu_registers.ppuaddr += 1;
        }
    }

    /// What the PPU register that `address` names reads as, with nothing
    /// changed.
    fn peek_ppu_register(&self, address: usize) -> (r: Result<u8, NesError>)
        requires
            self.wf(),
            0x2000 <= address < 0x4000,
        ensures
            r == self@.register_value(ppu_register_of(address as int)),
    {
        let reg: usize = (address - 0x2000) % 8;
        if reg == 0 {
            Ok(self.ppu_registers.ppuctrl)
        } else if reg == 1 {
            Ok(self.ppu_registers.ppumask)
        } else if reg == 2 {
            Ok(self.ppu_registers.ppustatus)
        } else if reg == 3 {
            Ok(self.oam_addr)
        } else if reg == 4 {
            Ok(self.oam_ram[self.oam_addr as usize])
        } else if reg == 7 {
            let a: u16 = self.ppu_registers.ppuaddr;
            if a < 0x3000 {
                Ok(self.ppu_registers.ppudata)
            } else if 0x3F00 <= a && a <= 0x3FFF {
                Ok(self.palette_memory.get_entry(0x3F00 + (a as usize % 0x20)))
            } else {
                Err(NesError::BadAddress)
            }
        } else {
            Ok(0)
        }
    }

    /// Reads a register of the PPU for the CPU. With `modify` the read has
    /// the side effects of the hardware; without it nothing changes.
    pub fn cpu_read_ppu_register(&mut self, address: usize, modify: bool) -> (r: Result<
        u8,
        NesError,
    >)
        requires
            old(self).wf(),
        ensures
            final(self).wf(),
            0x2000 <= address < 0x4000 ==> r == old(self)@.register_value(
                ppu_register_of(address as int),
            ),
            !(0x2000 <= address < 0x4000) ==> r == Err::<u8, NesError>(NesError::BadAddress),
            final(self)@ == if modify && 0x2000 <= address < 0x4000 {
                old(self)@.after_register_read(ppu_register_of(address as int))
            } else {
                old(self)@
            },
    {
        if address < 0x2000 || address >= 0x4000 {
            return Err(NesError::BadAddress);
        }
        let res = self.peek_ppu_register(address);
        if !modify {
            return res;
        }
        let reg: usize = (address - 0x2000) % 8;
        if reg == 2 {
            self.ppu_registers.ppustatus = modify_field(
                self.ppu_registers.ppustatus,
                1,
                STATUS_VBLANK_SHIFT,
                0,
            );
            self.ppu_registers.write_latch = false;
        } else if reg == 7 {
            let a: u16 = self.ppu_registers.ppuaddr;
            if a < 0x2000 {
                proof {
                    self.mapper.lemma_chr_window_len();
                }
                match self.mapper.chr_read(a as usize) {
                    Ok(b) => {
                        self.ppu_registers.ppudata = b;
                    },
                    Err(_) => {},
                }
                self.ppu_increment_vram_ptr();
            } else if a < 0x3000 {
                self.ppu_registers.ppudata = self.ppu_ram[self.translate_nametable_addr(a)];
                self.ppu_increment_vram_ptr();
            } else if 0x3F00 <= a && a <= 0x3FFF {
                self.ppu_increment_vram_ptr();
            }
        }
        res
    }

    /// Writes a register of the PPU for the CPU.
    pub fn cpu_write_ppu_register(&mut self, address: usize, value: u8) -> (r: Result<
        (),
        NesError,
    >)
        requires
            old(self).wf(),
        ensures
            final(self).wf(),
            r is Ok <==> 0x2000 <= address < 0x4000 && old(self)@.register_writable(
                ppu_register_of(address as int),
            ),
            r is Err ==> r == Err::<(), NesError>(NesError::BadAddress),
            final(self)@ == if 0x2000 <= address < 0x4000 {
                old(self)@.after_register_write(ppu_register_of(address as int), value)
            } else {
                old(self)@
            },
    {
        if address < 0x2000 || address >= 0x4000 {
            return Err(NesError::BadAddress);
        }
        let reg: usize = (address - 0x2000) % 8;
        if reg == 0 {
            self.ppu_registers.ppuctrl = value;
        } else if reg == 1 {
            self.ppu_registers.ppumask = value;
        } else if reg == 2 {
            self.ppu_registers.ppustatus = value;
        } else if reg == 3 {
            self.oam_addr = value;
        } else if reg == 4 {
            self.oam_ram[self.oam_addr as usize] = value;
            self.oam_addr = self.oam_addr.wrapping_add(1);
        } else if reg == 5 {
            if !self.ppu_registers.write_latch {
                self.ppu_registers.fine_x = value;
                self.ppu_registers.write_latch = true;
            } else {
                self.ppu_registers.fine_y = value;
                self.ppu_registers.write_latch = false;
            }
        } else if reg == 6 {
            proof {
                lemma_with_byte(self.ppu_registers.ppuaddr, value);
            }
            let mut a: u16 = self.ppu_registers.ppuaddr;
            if !self.ppu_registers.write_latch {
                set_bits16(&mut a, 15, 8, value);
                self.ppu_registers.ppuaddr = a;
                self.ppu_registers.write_latch = true;
            } else {
                set_bits16(&mut a, 7, 0, value);
                self.ppu_registers.ppuaddr = a % 0x4000;
                self.ppu_registers.write_latch = false;
            }
        } else {
            let a: u16 = self.ppu_registers.ppuaddr;
            if a < 0x2000 {
                if !self.mapper.has_chr_ram() {
                    return Ok(());
                }
                let _ = self.mapper.chr_write(a as usize, value);
                self.ppu_increment_vram_ptr();
            } else if a < 0x3000 {
                let cell = self.translate_nametable_addr(a);
                self.ppu_ram[cell] = value;
                self.ppu_increment_vram_ptr();
            } else if 0x3F00 <= a && a <= 0x3FFF {
                self.palette_memory.set_entry(0x3F00 + (a as usize % 0x20), value);
                self.ppu_increment_vram_ptr();
            } else {
                return Err(NesError::BadAddress);
            }
        }
        Ok(())
    }

    /// Reads one byte for the CPU, with the side effects of the hardware.
    pub fn cpu_read_byte(&mut self, address: usize) -> (r: Result<u8, NesError>)
        requires
            old(self).wf(),
        ensures
            final(self).wf(),
            r == old(self)@.peek(address as int),
            final(self)@ == old(self)@.after_read(address as int),
    {
        proof {
            reveal(BusModel::peek);
            reveal(BusModel::after_read);
        }
        if address < 0x2000 {
            Ok(self.cpu_ram[address % 0x0800])
        } else if address < 0x4000 {
            self.cpu_read_ppu_register(address, true)
        } else if address <= 0x4015 || address == 0x4017 {
            Ok(0)
        } else if address == 0x4016 {
            Ok(self.controller.read_from_controller())
        } else if 0x4020 <= address && address <= 0xFFFF {
            self.mapper.prg_read(address)
        } else {
            Err(NesError::BadAddress)
        }
    }

    /// Reads one byte as the CPU would see it, and changes nothing: no
    /// latch is cleared and no buffered read moves on.
    pub fn cpu_read_byte_no_modify(&mut self, address: usize) -> (r: Result<u8, NesError>)
        requires
            old(self).wf(),
        ensures
            r == old(self)@.peek(address as int),
            final(self)@ == old(self)@,
    {
        self.peek_byte(address)
    }

    /// What a read at `address` would return.
    fn peek_byte(&self, address: usize) -> (r: Result<u8, NesError>)
        requires
            self.wf(),
        ensures
            r == self@.peek(address as int),
    {
        proof {
            reveal(BusModel::peek);
        }
        if address < 0x2000 {
            Ok(self.cpu_ram[address % 0x0800])
        } else if address < 0x4000 {
            self.peek_ppu_register(address)
        } else if address <= 0x4015 || address == 0x4017 {
            Ok(0)
        } else if address == 0x4016 {
            Ok(self.controller.peek())
        } else if 0x4020 <= address && address <= 0xFFFF {
            self.mapper.prg_read(address)
        } else {
            Err(NesError::BadAddress)
        }
    }

    /// Reads two successive bytes for the CPU, the first at `address`,
    /// and stops at the first that fails.
    pub fn cpu_read_exact(&mut self, address: usize) -> (r: Result<(u8, u8), NesError>)
        requires
            old(self).wf(),
            address < usize::MAX,
        ensures
            final(self).wf(),
            r == old(self)@.peek_pair(address as int),
            final(self)@ == old(self)@.after_read_pair(address as int),
    {
        let lo = match self.cpu_read_byte(address) {
            Ok(b) => b,
            Err(e) => { return Err(e); },
        };
        let hi = match self.cpu_read_byte(address + 1) {
            Ok(b) => b,
            Err(e) => { return Err(e); },
        };
        Ok((lo, hi))
    }

    /// Writes one byte for the CPU.
    pub fn cpu_write_byte(&mut self, address: usize, value: u8) -> (r: Result<(), NesError>)
        requires
            old(self).wf(),
        ensures
            final(self).wf(),
            r == old(self)@.write_result(address as int),
            final(self)@ == old(self)@.after_write(address as int, value),
    {
        proof {
            reveal(BusModel::writable);
            reveal(BusModel::after_write);
        }
        if address < 0x2000 {
            self.cpu_ram[address % 0x0800] = value;
            Ok(())
        } else if address < 0x4000 {
            match self.cpu_write_ppu_register(address, value) {
                Ok(_) => Ok(()),
                Err(e) => Err(e),
            }
        } else if address == 0x4014 {
            self.dma_page_addr = (value as usize) * 256;
            self.pending_dma = true;
            Ok(())
        } else if address == 0x4016 {
            self.controller.write_to_controller(get_bit8(value, 0));
            Ok(())
        } else if address <= 0x4017 {
            Ok(())
        } else if 0x4020 <= address && address <= 0xFFFF {
            let _ = self.mapper.prg_write(address, value);
            Ok(())
        } else {
            Err(NesError::BadAddress)
        }
    }

    /// Carries out the pending transfer: the 256 bytes of the CPU page
    /// that was written to `0x4014` go to OAMDATA one after the other,
    /// so that they fill object attribute memory from the OAM address on,
    /// wrapping.
    pub fn process_dma(&mut self)
        requires
            old(self).wf(),
        ensures
            final(self).wf(),
            final(self)@ == old(self)@.after_dma(),
    {
        proof {
            reveal(BusModel::after_dma);
        }
        let mut i: usize = 0;
        while i < 0x100
            invariant
                i <= 0x100,
                self.wf(),
                self@.after_dma_from(i as int) == old(self)@.after_dma(),
            decreases 0x100 - i,
        {
            let byte: u8 = match self.peek_byte(self.dma_page_addr + i) {
                Ok(b) => b,
                Err(_) => 0,
            };
            let _ = self.cpu_write_ppu_register(0x2004, byte);
            i += 1;
        }
        self.pending_dma = false;
    }
}

} // verus!
