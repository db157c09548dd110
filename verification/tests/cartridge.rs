use nesemu::cartridge_data::{CartridgeData, ChrKind};
use nesemu::error::{LoadError, NesError};
use nesemu::mappers::mapper000::Mapper000;
use nesemu::mappers::{new_mapper, Mapper, MirrorMode};

fn cartridge_image(prg_blocks: u8, chr_blocks: u8, flags1: u8, flags2: u8) -> Vec<u8> {
    let mut image = vec![0x4E, 0x45, 0x53, 0x1A, prg_blocks, chr_blocks, flags1, flags2];
    image.extend_from_slice(&[0u8; 8]);
    if flags1 & 0x04 != 0 {
        image.extend_from_slice(&[0xEE; 512]);
    }
    for i in 0..(prg_blocks as usize * 16384) {
        image.push((i % 251) as u8);
    }
    for i in 0..(chr_blocks as usize * 8192) {
        image.push((i % 241) as u8);
    }
    image
}

#[test]
fn load_nestest() {
    // An image with the header of the nestest cartridge and the bytes of
    // it that are looked at.
    let mut image = cartridge_image(1, 1, 0, 0);
    image[16] = 0x4C;
    image[17] = 0xF5;
    image[18] = 0xC5;
    image[19] = 0x60;
    image[16 + 16383] = 0xC5;
    image[16 + 0x3FFC] = 0x04;
    let cartridge = CartridgeData::new(&image).expect("Failed to construct cartridge");
    assert_eq!(cartridge.get_header().prg_rom_size, 1);
    assert_eq!(cartridge.get_header().chr_rom_size, 1);
    assert_eq!(cartridge.get_header().flags1, 0);
    assert_eq!(cartridge.get_header().flags2, 0);
    assert_eq!(cartridge.get_header().prg_ram_size, 0);
    assert_eq!(cartridge.get_header().tv_system, 0);

    assert_eq!(cartridge.get_prg_rom().len(), 16384);
    assert_eq!(cartridge.get_chr_rom().len(), 8192);

    assert_eq!(cartridge.get_prg_rom()[..4], [0x4c, 0xF5, 0xC5, 0x60]);
    assert_eq!(*cartridge.get_prg_rom().last().unwrap(), 0xC5);

    let mut mapper = new_mapper(&image).expect("Failed to construct cartridge");
    assert_eq!(mapper.prg_read(0xFFFC), Ok(0x04));
    assert_eq!(mapper.prg_read(0xC000), Ok(0x4C));
    assert_eq!(mapper.prg_write(0xC000, 0), Ok(()));
}

#[test]
fn image_without_magic_is_refused() {
    let mut image = cartridge_image(1, 1, 0, 0);
    image[3] = 0x1B;
    assert!(matches!(CartridgeData::new(&image), Err(LoadError::InvalidMagic)));
    assert!(matches!(new_mapper(&image), Err(LoadError::InvalidMagic)));
}

#[test]
fn short_images_are_truncated() {
    assert!(matches!(CartridgeData::new(&[0x4E, 0x45, 0x53]), Err(LoadError::Truncated)));
    assert!(matches!(CartridgeData::new(&[0x4E, 0x45, 0x53, 0x1A, 1, 1]), Err(LoadError::Truncated)));
    let image = cartridge_image(2, 1, 0, 0);
    assert!(matches!(CartridgeData::new(&image[..image.len() - 1]), Err(LoadError::Truncated)));
    assert!(CartridgeData::new(&image).is_ok());
}

#[test]
fn magic_is_checked_before_length() {
    assert!(matches!(CartridgeData::new(&[1, 2, 3, 4]), Err(LoadError::InvalidMagic)));
}

#[test]
fn trailing_bytes_are_ignored() {
    let mut image = cartridge_image(1, 1, 0, 0);
    image.push(7);
    let cartridge = CartridgeData::new(&image).unwrap();
    assert_eq!(cartridge.get_chr_rom().len(), 8192);
}

#[test]
fn mapper_id_joins_the_two_nybbles() {
    let image = cartridge_image(1, 1, 0x10, 0x20);
    let cartridge = CartridgeData::new(&image).unwrap();
    assert_eq!(cartridge.mapper_id(), 0x21);
    let image = cartridge_image(1, 1, 0xF1, 0xF3);
    assert_eq!(CartridgeData::new(&image).unwrap().mapper_id(), 0xFF);
    let image = cartridge_image(1, 1, 0x0F, 0x0F);
    assert_eq!(CartridgeData::new(&image).unwrap().mapper_id(), 0);
}

#[test]
fn unknown_mapper_is_unsupported() {
    let image = cartridge_image(1, 1, 0x10, 0);
    assert!(matches!(new_mapper(&image), Err(LoadError::UnsupportedMapper)));
    let image = cartridge_image(1, 1, 0, 0x40);
    assert!(matches!(new_mapper(&image), Err(LoadError::UnsupportedMapper)));
}

#[test]
fn trainer_is_skipped() {
    let image = cartridge_image(1, 1, 0x04, 0);
    assert_eq!(image.len(), 16 + 512 + 16384 + 8192);
    let cartridge = CartridgeData::new(&image).unwrap();
    assert_eq!(cartridge.get_prg_rom()[0], 0);
    assert_eq!(cartridge.get_prg_rom()[1], 1);
    assert_eq!(cartridge.get_chr_rom()[5], 5);
    assert_eq!(cartridge.get_trainer().as_ref().unwrap(), &vec![0xEEu8; 512]);
    assert!(CartridgeData::new(&cartridge_image(1, 1, 0, 0)).unwrap().get_trainer().is_none());
    assert!(matches!(
        CartridgeData::new(&image[..image.len() - 512]),
        Err(LoadError::Truncated)
    ));
}

#[test]
fn cartridge_without_chr_rom_has_chr_ram() {
    let image = cartridge_image(1, 0, 0, 0);
    let mut cartridge = CartridgeData::new(&image).unwrap();
    assert!(cartridge.has_chr_ram());
    assert_eq!(cartridge.get_chr_rom().len(), 8192);
    assert!(cartridge.get_chr_rom().iter().all(|b| *b == 0));
    cartridge.write_chr(17, 0xAB);
    assert_eq!(cartridge.get_chr_rom()[17], 0xAB);
    assert_eq!(ChrKind::RAM, ChrKind::RAM);
}

#[test]
fn chr_rom_is_not_written() {
    let image = cartridge_image(1, 1, 0, 0);
    let mut mapper = new_mapper(&image).unwrap();
    assert!(!mapper.has_chr_ram());
    assert_eq!(mapper.chr_read(17), Ok(17));
    assert_eq!(mapper.chr_write(17, 0xAB), Ok(()));
    assert_eq!(mapper.chr_read(17), Ok(17));
    assert_eq!(mapper.chr_write(0x2000, 1), Err(NesError::BadAddress));
    assert_eq!(mapper.chr_read(0x2000), Err(NesError::BadAddress));
}

#[test]
fn chr_ram_is_written_through_the_mapper() {
    let image = cartridge_image(1, 0, 0, 0);
    let mut mapper = new_mapper(&image).unwrap();
    assert_eq!(mapper.chr_write(0x1FFF, 0x5A), Ok(()));
    assert_eq!(mapper.chr_read(0x1FFF), Ok(0x5A));
    assert_eq!(mapper.chr_read(0x1FFE), Ok(0));
}

#[test]
fn one_block_of_prg_is_mirrored() {
    let image = cartridge_image(1, 1, 0, 0);
    let mapper = new_mapper(&image).unwrap();
    assert_eq!(mapper.prg_read(0x8005), Ok(5));
    assert_eq!(mapper.prg_read(0xC005), Ok(5));
    assert_eq!(mapper.prg_read(0xBFFF), Ok((0x3FFF % 251) as u8));
    assert_eq!(mapper.prg_read(0xFFFF), Ok((0x3FFF % 251) as u8));
}

#[test]
fn two_blocks_of_prg_are_not_mirrored() {
    let image = cartridge_image(2, 1, 0, 0);
    let mapper = new_mapper(&image).unwrap();
    assert_eq!(mapper.prg_read(0x8005), Ok(5));
    assert_eq!(mapper.prg_read(0xC005), Ok((0x4005 % 251) as u8));
    assert_eq!(mapper.prg_read(0xFFFF), Ok((0x7FFF % 251) as u8));
}

#[test]
fn prg_reads_outside_the_rom_fail() {
    let image = cartridge_image(1, 1, 0, 0);
    let mapper = new_mapper(&image).unwrap();
    assert_eq!(mapper.prg_read(0x7FFF), Err(NesError::BadAddress));
    assert_eq!(mapper.prg_read(0x4020), Err(NesError::BadAddress));
    assert_eq!(mapper.prg_read(0x10000), Err(NesError::BadAddress));
    assert_eq!(mapper.prg_read(0), Err(NesError::BadAddress));
    let empty = new_mapper(&cartridge_image(0, 1, 0, 0)).unwrap();
    assert_eq!(empty.prg_read(0x8000), Err(NesError::BadAddress));
}

#[test]
fn mirroring_comes_from_the_header() {
    let horz: Mapper000 = new_mapper(&cartridge_image(1, 1, 0, 0)).unwrap();
    assert_eq!(horz.current_mirroring_mode(), MirrorMode::HORZ);
    let vert = new_mapper(&cartridge_image(1, 1, 1, 0)).unwrap();
    assert_eq!(vert.current_mirroring_mode(), MirrorMode::VERT);
    let vert = new_mapper(&cartridge_image(1, 1, 0x0F, 0)).unwrap();
    assert_eq!(vert.current_mirroring_mode(), MirrorMode::VERT);
    let horz = new_mapper(&cartridge_image(1, 1, 0x0E, 0)).unwrap();
    assert_eq!(horz.current_mirroring_mode(), MirrorMode::HORZ);
}

#[test]
fn patterns_are_sixteen_bytes() {
    let mapper = new_mapper(&cartridge_image(1, 1, 0, 0)).unwrap();
    let pattern = mapper.chr_read_pattern(0x1000, 2).unwrap();
    assert_eq!(pattern.len(), 16);
    assert_eq!(pattern[0], ((0x1000 + 32) % 241) as u8);
    assert_eq!(pattern[15], ((0x1000 + 47) % 241) as u8);
    assert!(mapper.chr_read_pattern(0x1000, 255).is_some());
    assert!(mapper.chr_read_pattern(0x2000, 0).is_none());
    assert!(mapper.chr_read_pattern(0x1001, 255).is_none());
}

#[test]
fn load_errors_have_messages() {
    assert_eq!(LoadError::InvalidMagic.message(), "cartridge image has an invalid magic number");
    assert_eq!(LoadError::Truncated.message(), "cartridge image is truncated");
    assert_eq!(LoadError::UnsupportedMapper.message(), "cartridge mapper is not supported");
    assert_eq!(NesError::Decode.message(), "invalid opcode");
    assert_eq!(NesError::BadAddress.message(), "bad address on bus");
}
