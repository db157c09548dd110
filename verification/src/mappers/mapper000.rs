//! Mapper 0: no bank switching. Program ROM is one or two 16 KiB blocks;
//! with one block the upper half of program space mirrors the lower.

use vstd::prelude::*;
use vstd::slice::slice_subrange;
use crate::bits::{bit8, field_is_set, lemma_field_is_bit};
use crate::cartridge_data::{cartridge_wf, CartridgeData, CartridgeModel, ChrKind};
use crate::error::NesError;
use crate::mappers::{Mapper, MirrorMode};

verus! {

/// The offset into program ROM that `addr` names, for a cartridge with
/// `blocks` blocks of program ROM.
pub open spec fn prg_offset(blocks: u8, addr: int) -> int
    recommends
        0x8000 <= addr <= 0xFFFF,
{
    if addr < 0xC000 || blocks > 1 {
        addr - 0x8000
    } else {
        addr - 0xC000
    }
}

/// What a program read at `addr` gives on mapper 0.
pub open spec fn prg_value_of(c: CartridgeModel, addr: int) -> Result<u8, NesError> {
    if 0x8000 <= addr <= 0xFFFF && prg_offset(c.header.prg_rom_size, addr) < c.prg_rom.len() {
        Ok(c.prg_rom[prg_offset(c.header.prg_rom_size, addr)])
    } else {
        Err(NesError::BadAddress)
    }
}

/// The mirroring that the header fixes.
pub open spec fn mirroring_of(c: CartridgeModel) -> MirrorMode {
    if bit8(c.header.flags1, 0) {
        MirrorMode::VERT
    } else {
        MirrorMode::HORZ
    }
}

pub struct Mapper000 {
    cartridge_data: CartridgeData,
}

impl Mapper000 {
    /// The cartridge that the mapper holds.
    pub closed spec fn view(&self) -> CartridgeModel {
        self.cartridge_data@
    }

    pub fn new(cartridge_data: CartridgeData) -> (r: Self)
        requires
            cartridge_wf(cartridge_data@),
        ensures
            r@ == cartridge_data@,
            r.wf(),
    {
        Self { cartridge_data }
    }

    /// Character storage, whichever kind it is.
    pub fn get_chr(&self) -> (r: &[u8])
        ensures
            r@ == self@.chr,
    {
        self.cartridge_data.get_chr_rom()
    }

    /// Whether character storage is RAM.
    pub fn has_chr_ram(&self) -> (r: bool)
        ensures
            r == (self@.chr_kind == ChrKind::RAM),
    {
        self.cartridge_data.has_chr_ram()
    }

    pub fn get_header(&self) -> (r: &crate::cartridge_data::INESHeader)
        ensures
            *r == self@.header,
    {
        self.cartridge_data.get_header()
    }
}

impl Mapper for Mapper000 {
    open spec fn wf(&self) -> bool {
        cartridge_wf(self@)
    }

    open spec fn prg_value(&self, addr: int) -> Result<u8, NesError> {
        prg_value_of(self@, addr)
    }

    open spec fn chr_window(&self) -> Seq<u8> {
        self@.chr.subrange(0, 0x2000)
    }

    open spec fn chr_writable(&self) -> bool {
        self@.chr_kind == ChrKind::RAM
    }

    open spec fn mirroring(&self) -> MirrorMode {
        mirroring_of(self@)
    }

    proof fn lemma_chr_window_len(&self) {
    }

    fn prg_read(&self, cpu_bus_address: usize) -> (r: Result<u8, NesError>) {
        if cpu_bus_address < 0x8000 || cpu_bus_address > 0xFFFF {
            return Err(NesError::BadAddress);
        }
        let window: usize = if cpu_bus_address < 0xC000
            || self.cartridge_data.get_header().prg_rom_size > 1 {
            0x8000
        } else {
            0xC000
        };
        let prg = self.cartridge_data.get_prg_rom();
        let offset: usize = cpu_bus_address - window;
        if offset < prg.len() {
            Ok(prg[offset])
        } else {
            Err(NesError::BadAddress)
        }
    }

    fn prg_write(&mut self, cpu_bus_address: usize, val: u8) -> (r: Result<(), NesError>)
        ensures
            final(self)@ == old(self)@,
            r is Ok,
    {
        Ok(())
    }

    fn chr_read(&self, ppu_bus_address: usize) -> (r: Result<u8, NesError>) {
        if ppu_bus_address < 0x2000 {
            Ok(self.cartridge_data.get_chr_rom()[ppu_bus_address])
        } else {
            Err(NesError::BadAddress)
        }
    }

    fn chr_read_pattern(&self, base_addr: usize, pattern_idx: u8) -> (r: Option<&[u8]>) {
        let start: usize = base_addr + 16 * (pattern_idx as usize);
        if start + 16 <= 0x2000 {
            let chr = self.cartridge_data.get_chr_rom();
            let tile = slice_subrange(chr, start, start + 16);
            assert(tile@ =~= self.chr_window().subrange(start as int, start + 16));
            Some(tile)
        } else {
            None
        }
    }

    fn chr_write(&mut self, ppu_bus_address: usize, value: u8) -> (r: Result<(), NesError>)
        ensures
            final(self)@ == (CartridgeModel {
                chr: if ppu_bus_address < 0x2000 && old(self)@.chr_kind == ChrKind::RAM {
                    old(self)@.chr.update(ppu_bus_address as int, value)
                } else {
                    old(self)@.chr
                },
                ..old(self)@
            }),
    {
        if ppu_bus_address < 0x2000 {
            self.cartridge_data.write_chr(ppu_bus_address, value);
            assert(self.chr_window() =~= (if old(self).chr_writable() {
                old(self).chr_window().update(ppu_bus_address as int, value)
            } else {
                old(self).chr_window()
            }));
            Ok(())
        } else {
            Err(NesError::BadAddress)
        }
    }

    fn current_mirroring_mode(&self) -> (r: MirrorMode) {
        proof {
            lemma_field_is_bit(self@.header.flags1, 0);
        }
        if field_is_set(self.cartridge_data.get_header().flags1, 1, 0) {
            MirrorMode::VERT
        } else {
            MirrorMode::HORZ
        }
    }
}

} // verus!
