//! The contents of a cartridge: its header record, program ROM and
//! character storage, as laid out in an iNES image.

use vstd::prelude::*;
use vstd::slice::{slice_subrange, slice_to_vec};
use crate::bits::{bit8, field_is_set, field_value, lemma_field_is_bit, lemma_high_nybble, read_field};
use crate::error::LoadError;

verus! {

/// The size of the header of an image.
pub const HEADER_SIZE: usize = 16;

/// The size of the optional trainer block.
pub const TRAINER_SIZE: usize = 512;

/// The size of one block of program ROM.
pub const PRG_ROM_BLOCK_SZ: usize = 16384;

/// The size of one block of character storage.
pub const CHR_ROM_BLOCK_SZ: usize = 8192;

/// The header record of an image.
#[derive(Clone, Copy, Debug, PartialEq, Eq, Structural)]
pub struct INESHeader {
    pub prg_rom_size: u8,
    pub chr_rom_size: u8,
    pub flags1: u8,
    pub flags2: u8,
    pub prg_ram_size: u8,
    pub tv_system: u8,
}

/// Whether character storage can be written.
#[derive(Clone, Copy, Debug, PartialEq, Eq, Structural)]
pub enum ChrKind {
    ROM,
    RAM,
}

/// The mathematical content of a cartridge.
pub struct CartridgeModel {
    pub header: INESHeader,
    pub mapper_id: u16,
    /// The 512 bytes of the trainer block, where the image has one.
    pub trainer: Option<Seq<u8>>,
    pub prg_rom: Seq<u8>,
    pub chr_kind: ChrKind,
    pub chr: Seq<u8>,
}

/// Whether the first four bytes of `image` are the magic number.
pub open spec fn has_magic(image: Seq<u8>) -> bool {
    &&& image.len() >= 4
    &&& image[0] == 0x4E
    &&& image[1] == 0x45
    &&& image[2] == 0x53
    &&& image[3] == 0x1A
}

/// The header record that the first sixteen bytes of `image` spell.
pub open spec fn header_of(image: Seq<u8>) -> INESHeader
    recommends
        image.len() >= 16,
{
    INESHeader {
        prg_rom_size: image[4],
        chr_rom_size: image[5],
        flags1: image[6],
        flags2: image[7],
        prg_ram_size: image[8],
        tv_system: image[9],
    }
}

/// The mapper number: the upper nybble of the first flag byte is its lower
/// nybble, the upper nybble of the second flag byte its upper one.
pub open spec fn mapper_id_of(header: INESHeader) -> u16 {
    (header.flags1 / 16 + 16 * (header.flags2 / 16)) as u16
}

/// Whether the header announces a trainer block.
pub open spec fn has_trainer(header: INESHeader) -> bool {
    bit8(header.flags1, 2)
}

/// Where program ROM starts in the image.
pub open spec fn prg_start(header: INESHeader) -> int {
    16 + if has_trainer(header) { 512int } else { 0 }
}

/// The length of program ROM.
pub open spec fn prg_len(header: INESHeader) -> int {
    header.prg_rom_size * 16384
}

/// The length of character ROM in the image; none where the cartridge has
/// character RAM.
pub open spec fn chr_len(header: INESHeader) -> int {
    header.chr_rom_size * 8192
}

/// The number of bytes that an image with this header must hold.
pub open spec fn image_len(header: INESHeader) -> int {
    prg_start(header) + prg_len(header) + chr_len(header)
}

/// Whether `image` is a complete image.
pub open spec fn image_complete(image: Seq<u8>) -> bool {
    &&& image.len() >= 16
    &&& image.len() >= image_len(header_of(image))
}

/// The cartridge that a complete image with a valid magic number describes.
pub open spec fn cartridge_of(image: Seq<u8>) -> CartridgeModel {
    let header = header_of(image);
    let start = prg_start(header);
    let chr_start = start + prg_len(header);
    CartridgeModel {
        header,
        mapper_id: mapper_id_of(header),
        trainer: if has_trainer(header) {
            Some(image.subrange(16, 528))
        } else {
            None
        },
        prg_rom: image.subrange(start, chr_start),
        chr_kind: if header.chr_rom_size != 0 { ChrKind::ROM } else { ChrKind::RAM },
        chr: if header.chr_rom_size != 0 {
            image.subrange(chr_start, chr_start + chr_len(header))
        } else {
            Seq::new(8192, |i: int| 0u8)
        },
    }
}

/// What reading `image` gives: the cartridge, or the reason why there is
/// none. A missing magic number is reported before a short image, unless
/// the image is too short to hold one.
pub open spec fn parse_image(image: Seq<u8>) -> Result<CartridgeModel, LoadError> {
    if image.len() < 4 {
        Err(LoadError::Truncated)
    } else if !has_magic(image) {
        Err(LoadError::InvalidMagic)
    } else if !image_complete(image) {
        Err(LoadError::Truncated)
    } else {
        Ok(cartridge_of(image))
    }
}

/// What holds of every cartridge that was read from an image: program ROM
/// has the announced size, and character storage is at least one block.
pub open spec fn cartridge_wf(c: CartridgeModel) -> bool {
    &&& c.prg_rom.len() == c.header.prg_rom_size * 16384
    &&& c.chr.len() >= 8192
    &&& c.chr.len() <= 255 * 8192
    &&& c.mapper_id == mapper_id_of(c.header)
    &&& c.chr_kind == ChrKind::RAM <==> c.header.chr_rom_size == 0
}

/// Every cartridge that an image describes is well formed.
pub proof fn lemma_parsed_wf(image: Seq<u8>)
    requires
        parse_image(image) is Ok,
    ensures
        cartridge_wf(parse_image(image)->Ok_0),
{
}

pub struct CartridgeData {
    header: INESHeader,
    mapper_id: u16,
    trainer: Option<Vec<u8>>,
    prg_rom: Vec<u8>,
    chr_kind: ChrKind,
    chr_data: Vec<u8>,
}

impl CartridgeData {
    pub closed spec fn view(&self) -> CartridgeModel {
        CartridgeModel {
            header: self.header,
            mapper_id: self.mapper_id,
            trainer: match self.trainer {
                Some(t) => Some(t@),
                None => None,
            },
            prg_rom: self.prg_rom@,
            chr_kind: self.chr_kind,
            chr: self.chr_data@,
        }
    }

    /// Reads a cartridge from the bytes of an image.
    pub fn new(image: &[u8]) -> (r: Result<CartridgeData, LoadError>)
        ensures
            match r {
                Ok(c) => parse_image(image@) == Ok::<CartridgeModel, LoadError>(c@) && cartridge_wf(
                    c@,
                ),
                Err(e) => parse_image(image@) == Err::<CartridgeModel, LoadError>(e),
            },
    {
        let len = image.len();
        if len < 4 {
            return Err(LoadError::Truncated);
        }
        if image[0] != 0x4E || image[1] != 0x45 || image[2] != 0x53 || image[3] != 0x1A {
            return Err(LoadError::InvalidMagic);
        }
        if len < HEADER_SIZE {
            return Err(LoadError::Truncated);
        }
        let header = INESHeader {
            prg_rom_size: image[4],
            chr_rom_size: image[5],
            flags1: image[6],
            flags2: image[7],
            prg_ram_size: image[8],
            tv_system: image[9],
        };
        proof {
            lemma_field_is_bit(header.flags1, 2);
            lemma_high_nybble(header.flags1);
            lemma_high_nybble(header.flags2);
        }
        let start: usize = if field_is_set(header.flags1, 1, 2) {
            HEADER_SIZE + TRAINER_SIZE
        } else {
            HEADER_SIZE
        };
        let prg_size: usize = header.prg_rom_size as usize * PRG_ROM_BLOCK_SZ;
        let chr_size: usize = header.chr_rom_size as usize * CHR_ROM_BLOCK_SZ;
        let chr_start: usize = start + prg_size;
        if len < chr_start + chr_size {
            return Err(LoadError::Truncated);
        }
        let trainer = if start > HEADER_SIZE {
            Some(slice_to_vec(slice_subrange(image, HEADER_SIZE, start)))
        } else {
            None
        };
        let prg_rom = slice_to_vec(slice_subrange(image, start, chr_start));
        let (chr_kind, chr_data) = if header.chr_rom_size != 0 {
            (ChrKind::ROM, slice_to_vec(slice_subrange(image, chr_start, chr_start + chr_size)))
        } else {
            (ChrKind::RAM, zeroed(CHR_ROM_BLOCK_SZ))
        };
        let lower: u8 = read_field(header.flags1, 0xF, 4);
        let upper: u8 = read_field(header.flags2, 0xF, 4);
        let mapper_id: u16 = lower as u16 + 16 * (upper as u16);
        let c = CartridgeData { header, mapper_id, trainer, prg_rom, chr_kind, chr_data };
        proof {
            assert(c@.chr =~= cartridge_of(image@).chr);
            assert(c@.prg_rom =~= cartridge_of(image@).prg_rom);
        }
        Ok(c)
    }

    pub fn get_header(&self) -> (r: &INESHeader)
        ensures
            *r == self@.header,
    {
        &self.header
    }

    /// The trainer block, where the image has one.
    pub fn get_trainer(&self) -> (r: &Option<Vec<u8>>)
        ensures
            match *r {
                Some(t) => self@.trainer == Some(t@),
                None => self@.trainer is None,
            },
    {
        &self.trainer
    }

    pub fn mapper_id(&self) -> (r: u16)
        ensures
            r == self@.mapper_id,
    {
        self.mapper_id
    }

    pub fn get_prg_rom(&self) -> (r: &[u8])
        ensures
            r@ == self@.prg_rom,
    {
        self.prg_rom.as_slice()
    }

    /// Character storage, whichever kind it is.
    pub fn get_chr_rom(&self) -> (r: &[u8])
        ensures
            r@ == self@.chr,
    {
        self.chr_data.as_slice()
    }

    /// Whether character storage is RAM.
    pub fn has_chr_ram(&self) -> (r: bool)
        ensures
            r == (self@.chr_kind == ChrKind::RAM),
    {
        match self.chr_kind {
            ChrKind::RAM => true,
            ChrKind::ROM => false,
        }
    }

    /// Writes one byte of character RAM. Character ROM stays as it is.
    pub fn write_chr(&mut self, offset: usize, value: u8)
        requires
            offset < old(self)@.chr.len(),
        ensures
            final(self)@ == (CartridgeModel {
                chr: if old(self)@.chr_kind == ChrKind::RAM {
                    old(self)@.chr.update(offset as int, value)
                } else {
                    old(self)@.chr
                },
                ..old(self)@
            }),
    {
        match self.chr_kind {
            ChrKind::RAM => {
                self.chr_data.set(offset, value);
            },
            ChrKind::ROM => {},
        }
    }
}

/// A vector of `n` zero bytes.
fn zeroed(n: usize) -> (r: Vec<u8>)
    ensures
        r@ == Seq::new(n as nat, |i: int| 0u8),
{
    let mut v: Vec<u8> = Vec::new();
    let mut i: usize = 0;
    while i < n
        invariant
            i <= n,
            v@ == Seq::new(i as nat, |k: int| 0u8),
        decreases n - i,
    {
        v.push(0);
        i += 1;
        assert(v@ =~= Seq::new(i as nat, |k: int| 0u8));
    }
    v
}

} // verus!
