//! Cartridge hardware sits between the buses and the cartridge's data. It
//! decides which byte of the data an address names, and may take writes to
//! ROM addresses as commands.

use vstd::prelude::*;
use crate::cartridge_data::{CartridgeData, CartridgeModel};
use crate::error::{LoadError, NesError};

pub mod mapper000;

use mapper000::Mapper000;

verus! {

/// How the four logical nametables share the two physical ones.
#[derive(Clone, Copy, Debug, PartialEq, Eq, Structural)]
pub enum MirrorMode {
    HORZ,
    VERT,
}

/// What the buses ask of cartridge hardware.
pub trait Mapper: Sized {
    /// Whether the mapper's state is consistent.
    spec fn wf(&self) -> bool;

    /// What a program read at `addr` gives.
    spec fn prg_value(&self, addr: int) -> Result<u8, NesError>;

    /// The 8 KiB of character data that the PPU sees at addresses
    /// `0x0000..0x2000`.
    spec fn chr_window(&self) -> Seq<u8>;

    /// Whether character data can be written.
    spec fn chr_writable(&self) -> bool;

    /// The mirroring in force.
    spec fn mirroring(&self) -> MirrorMode;

    /// The window is always 8 KiB.
    proof fn lemma_chr_window_len(&self)
        requires
            self.wf(),
        ensures
            self.chr_window().len() == 0x2000,
    ;

    /// Reads one byte of program data. Addresses below `0x4020` are never
    /// the cartridge's.
    fn prg_read(&self, cpu_bus_address: usize) -> (r: Result<u8, NesError>)
        requires
            self.wf(),
        ensures
            r == self.prg_value(cpu_bus_address as int),
            cpu_bus_address < 0x4020 || cpu_bus_address > 0xFFFF ==> r is Err,
    ;

    /// Writes one byte to program space, which a mapper may take as a
    /// command. Character data is not touched.
    fn prg_write(&mut self, cpu_bus_address: usize, val: u8) -> (r: Result<(), NesError>)
        requires
            old(self).wf(),
        ensures
            final(self).wf(),
            final(self).chr_window() == old(self).chr_window(),
            final(self).chr_writable() == old(self).chr_writable(),
    ;

    /// Reads one byte of character data.
    fn chr_read(&self, ppu_bus_address: usize) -> (r: Result<u8, NesError>)
        requires
            self.wf(),
        ensures
            ppu_bus_address < 0x2000 ==> r == Ok::<u8, NesError>(
                self.chr_window()[ppu_bus_address as int],
            ),
            ppu_bus_address >= 0x2000 ==> r == Err::<u8, NesError>(NesError::BadAddress),
    ;

    /// The sixteen bytes of pattern `pattern_idx` in the pattern table at
    /// `base_addr`; `None` where they do not all lie inside the window.
    fn chr_read_pattern(&self, base_addr: usize, pattern_idx: u8) -> (r: Option<&[u8]>)
        requires
            self.wf(),
            base_addr <= 0x2000,
        ensures
            base_addr + 16 * pattern_idx + 16 <= 0x2000 ==> r is Some && r->Some_0@
                == self.chr_window().subrange(
                base_addr + 16 * pattern_idx,
                base_addr + 16 * pattern_idx + 16,
            ),
            base_addr + 16 * pattern_idx + 16 > 0x2000 ==> r is None,
    ;

    /// Writes one byte of character data, where it is RAM; ROM stays as it
    /// is.
    fn chr_write(&mut self, ppu_bus_address: usize, value: u8) -> (r: Result<(), NesError>)
        requires
            old(self).wf(),
        ensures
            final(self).wf(),
            final(self).chr_writable() == old(self).chr_writable(),
            final(self).mirroring() == old(self).mirroring(),
            forall|a: int| final(self).prg_value(a) == old(self).prg_value(a),
            ppu_bus_address < 0x2000 ==> r is Ok && final(self).chr_window() == (
            if old(self).chr_writable() {
                old(self).chr_window().update(ppu_bus_address as int, value)
            } else {
                old(self).chr_window()
            }),
            ppu_bus_address >= 0x2000 ==> r == Err::<(), NesError>(NesError::BadAddress)
                && final(self).chr_window() == old(self).chr_window(),
    ;

    /// The mirroring in force.
    fn current_mirroring_mode(&self) -> (r: MirrorMode)
        requires
            self.wf(),
        ensures
            r == self.mirroring(),
    ;
}

/// What building a mapper for a cartridge gives: only mapper 0 is modelled.
pub open spec fn mapper_for(c: Result<CartridgeModel, LoadError>) -> Result<
    CartridgeModel,
    LoadError,
> {
    match c {
        Ok(m) => if m.mapper_id == 0 {
            Ok(m)
        } else {
            Err(LoadError::UnsupportedMapper)
        },
        Err(e) => Err(e),
    }
}

/// Builds the mapper that an image asks for. Fails where the image cannot
/// be read, or asks for a mapper that is not modelled.
pub fn new_mapper(image: &[u8]) -> (r: Result<Mapper000, LoadError>)
    ensures
        match r {
            Ok(m) => m.wf() && mapper_for(crate::cartridge_data::parse_image(image@)) == Ok::<
                CartridgeModel,
                LoadError,
            >(m@),
            Err(e) => mapper_for(crate::cartridge_data::parse_image(image@)) == Err::<
                CartridgeModel,
                LoadError,
            >(e),
        },
{
    match CartridgeData::new(image) {
        Ok(cartridge_data) => {
            if cartridge_data.mapper_id() == 0 {
                Ok(Mapper000::new(cartridge_data))
            } else {
                Err(LoadError::UnsupportedMapper)
            }
        },
        Err(e) => Err(e),
    }
}

} // verus!
