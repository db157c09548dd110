use nesemu::bus::Bus;
use nesemu::controller::InputEvent;
use nesemu::error::{LoadError, NesError};

fn bus_image(flags1: u8, chr_blocks: u8) -> Vec<u8> {
    let mut image = vec![0x4E, 0x45, 0x53, 0x1A, 1, chr_blocks, flags1, 0];
    image.extend_from_slice(&[0u8; 8]);
    for i in 0..16384usize {
        image.push((i % 253) as u8);
    }
    for i in 0..(chr_blocks as usize * 8192) {
        image.push((i % 239) as u8);
    }
    image
}

fn set_vram_addr(bus: &mut Bus, addr: u16) {
    bus.cpu_write_byte(0x2006, (addr >> 8) as u8).unwrap();
    bus.cpu_write_byte(0x2006, (addr & 0xFF) as u8).unwrap();
}

#[test]
fn bus_needs_a_valid_cartridge() {
    assert!(Bus::new(&bus_image(0, 1)).is_ok());
    assert!(matches!(Bus::new(&[0u8; 32]), Err(LoadError::InvalidMagic)));
    assert!(matches!(Bus::new(&bus_image(0x20, 1)), Err(LoadError::UnsupportedMapper)));
}

#[test]
fn cpu_ram_is_mirrored_four_times() {
    let mut bus = Bus::new(&bus_image(0, 1)).unwrap();
    for (k, base) in [0x0000usize, 0x0800, 0x1000, 0x1800].iter().enumerate() {
        let value = 0x40 + k as u8;
        bus.cpu_write_byte(base + 0x123, value).unwrap();
        for other in [0x0000usize, 0x0800, 0x1000, 0x1800] {
            assert_eq!(bus.cpu_read_byte(other + 0x123), Ok(value));
        }
    }
    bus.cpu_write_byte(0x1FFF, 0x77).unwrap();
    assert_eq!(bus.cpu_read_byte(0x07FF), Ok(0x77));
    assert_eq!(bus.cpu_read_byte(0x07FE), Ok(0));
    bus.cpu_write_byte(0x0801, 0x31).unwrap();
    assert_eq!(bus.cpu_read_byte(0x0001), Ok(0x31));
}

#[test]
fn scroll_takes_two_writes() {
    let mut bus = Bus::new(&bus_image(0, 1)).unwrap();
    bus.cpu_write_byte(0x2005, 0x12).unwrap();
    bus.cpu_write_byte(0x2005, 0x34).unwrap();
    assert_eq!(bus.ppu_get_registers().fine_x, 0x12);
    assert_eq!(bus.ppu_get_registers().fine_y, 0x34);
    assert!(!bus.ppu_get_registers().write_latch);
    bus.cpu_write_byte(0x2005, 0x56).unwrap();
    assert_eq!(bus.ppu_get_registers().fine_x, 0x56);
    assert_eq!(bus.ppu_get_registers().fine_y, 0x34);
    assert!(bus.ppu_get_registers().write_latch);
    assert_eq!(bus.cpu_read_byte(0x2005), Ok(0));
}

#[test]
fn status_read_resets_the_scroll_latch() {
    let mut bus = Bus::new(&bus_image(0, 1)).unwrap();
    bus.cpu_write_byte(0x2005, 0x01).unwrap();
    bus.cpu_read_byte(0x2002).unwrap();
    bus.cpu_write_byte(0x2005, 0x12).unwrap();
    bus.cpu_write_byte(0x2005, 0x34).unwrap();
    assert_eq!(bus.ppu_get_registers().fine_x, 0x12);
    assert_eq!(bus.ppu_get_registers().fine_y, 0x34);
}

#[test]
fn status_read_clears_vblank() {
    let mut bus = Bus::new(&bus_image(0, 1)).unwrap();
    bus.cpu_write_byte(0x2002, 0xE5).unwrap();
    bus.cpu_write_byte(0x2006, 0x21).unwrap();
    assert!(bus.ppu_get_registers().write_latch);
    assert_eq!(bus.cpu_read_byte_no_modify(0x2002), Ok(0xE5));
    assert_eq!(bus.cpu_read_byte_no_modify(0x2002), Ok(0xE5));
    assert!(bus.ppu_get_registers().write_latch);
    assert_eq!(bus.cpu_read_byte(0x2002), Ok(0xE5));
    assert!(!bus.ppu_get_registers().write_latch);
    assert_eq!(bus.ppu_get_registers().ppustatus, 0x65);
    assert_eq!(bus.cpu_read_byte(0x2002), Ok(0x65));
    assert_eq!(bus.cpu_read_byte(0x2002), Ok(0x65));
}

#[test]
fn ppu_registers_repeat_every_eight() {
    let mut bus = Bus::new(&bus_image(0, 1)).unwrap();
    bus.cpu_write_byte(0x2008, 0x90).unwrap();
    assert_eq!(bus.cpu_read_byte(0x2000), Ok(0x90));
    bus.cpu_write_byte(0x3FF9, 0x1E).unwrap();
    assert_eq!(bus.cpu_read_byte(0x2001), Ok(0x1E));
    assert_eq!(bus.cpu_read_byte(0x3001), Ok(0x1E));
    assert_eq!(bus.cpu_read_ppu_register(0x4000, true), Err(NesError::BadAddress));
    assert_eq!(bus.cpu_write_ppu_register(0x1FFF, 0), Err(NesError::BadAddress));
}

#[test]
fn nametable_mirroring_horizontal() {
    let mut bus = Bus::new(&bus_image(0, 1)).unwrap();
    set_vram_addr(&mut bus, 0x2000);
    bus.cpu_write_byte(0x2007, 0x42).unwrap();
    assert_eq!(bus.ppu_read_nametable(0x2000), Ok(0x42));
    assert_eq!(bus.ppu_read_nametable(0x2400), Ok(0x42));
    assert_eq!(bus.ppu_read_nametable(0x2800), Ok(0));
    assert_eq!(bus.ppu_read_nametable(0x2C00), Ok(0));
    set_vram_addr(&mut bus, 0x2C05);
    bus.cpu_write_byte(0x2007, 0x43).unwrap();
    assert_eq!(bus.ppu_read_nametable(0x2805), Ok(0x43));
    assert_eq!(bus.ppu_read_nametable(0x2005), Ok(0));
    assert_eq!(bus.translate_nametable_addr(0x2C05), 0x405);
    assert_eq!(bus.translate_nametable_addr(0x27FF), 0x3FF);
}

#[test]
fn nametable_mirroring_vertical() {
    let mut bus = Bus::new(&bus_image(1, 1)).unwrap();
    set_vram_addr(&mut bus, 0x2000);
    bus.cpu_write_byte(0x2007, 0x42).unwrap();
    assert_eq!(bus.ppu_read_nametable(0x2000), Ok(0x42));
    assert_eq!(bus.ppu_read_nametable(0x2800), Ok(0x42));
    assert_eq!(bus.ppu_read_nametable(0x2400), Ok(0));
    assert_eq!(bus.ppu_read_nametable(0x2C00), Ok(0));
    assert_eq!(bus.translate_nametable_addr(0x2C05), 0x405);
    assert_eq!(bus.translate_nametable_addr(0x2805), 0x005);
    assert_eq!(bus.translate_nametable_addr(0x2405), 0x405);
}

#[test]
fn nametable_reads_outside_fail() {
    let bus = Bus::new(&bus_image(0, 1)).unwrap();
    assert_eq!(bus.ppu_read_nametable(0x1FFF), Err(NesError::BadAddress));
    assert_eq!(bus.ppu_read_nametable(0x3000), Err(NesError::BadAddress));
}

#[test]
fn oam_dma_copies_a_page() {
    let mut bus = Bus::new(&bus_image(0, 1)).unwrap();
    for i in 0..256usize {
        bus.cpu_write_byte(0x0200 + i, (i as u8) ^ 0x5A).unwrap();
    }
    assert!(!bus.pending_dma());
    bus.cpu_write_byte(0x4014, 0x02).unwrap();
    assert!(bus.pending_dma());
    bus.process_dma();
    assert!(!bus.pending_dma());
    for i in 0..256usize {
        assert_eq!(bus.oam()[i], (i as u8) ^ 0x5A);
    }
    assert_eq!(bus.cpu_read_byte(0x2003), Ok(0));
}

#[test]
fn oam_dma_starts_at_the_oam_address_and_wraps() {
    let mut bus = Bus::new(&bus_image(0, 1)).unwrap();
    for i in 0..256usize {
        bus.cpu_write_byte(0x0300 + i, i as u8).unwrap();
    }
    bus.cpu_write_byte(0x2003, 0xF0).unwrap();
    bus.cpu_write_byte(0x4014, 0x03).unwrap();
    bus.process_dma();
    assert_eq!(bus.oam()[0xF0], 0);
    assert_eq!(bus.oam()[0xFF], 15);
    assert_eq!(bus.oam()[0x00], 16);
    assert_eq!(bus.oam()[0xEF], 255);
    assert_eq!(bus.cpu_read_byte(0x2003), Ok(0xF0));
}

#[test]
fn oam_dma_from_a_mirror_and_from_rom() {
    let mut bus = Bus::new(&bus_image(0, 1)).unwrap();
    bus.cpu_write_byte(0x0105, 0x99).unwrap();
    bus.cpu_write_byte(0x4014, 0x09).unwrap();
    bus.process_dma();
    assert_eq!(bus.oam()[5], 0x99);
    bus.cpu_write_byte(0x4014, 0x80).unwrap();
    bus.process_dma();
    assert_eq!(bus.oam()[7], 7);
    assert_eq!(bus.oam()[255], 255 % 253);
    // Nothing answers in the page at 0x4100.
    bus.cpu_write_byte(0x4014, 0x41).unwrap();
    bus.process_dma();
    assert!(bus.oam().iter().all(|b| *b == 0));
}

#[test]
fn oam_data_moves_the_oam_address() {
    let mut bus = Bus::new(&bus_image(0, 1)).unwrap();
    bus.cpu_write_byte(0x2003, 0xFF).unwrap();
    bus.cpu_write_byte(0x2004, 0x11).unwrap();
    assert_eq!(bus.cpu_read_byte(0x2003), Ok(0x00));
    bus.cpu_write_byte(0x2004, 0x22).unwrap();
    assert_eq!(bus.cpu_read_byte(0x2003), Ok(0x01));
    assert_eq!(bus.oam()[0xFF], 0x11);
    assert_eq!(bus.oam()[0x00], 0x22);
    bus.cpu_write_byte(0x2003, 0xFF).unwrap();
    assert_eq!(bus.cpu_read_byte(0x2004), Ok(0x11));
    assert_eq!(bus.cpu_read_byte(0x2003), Ok(0xFF));
}

#[test]
fn ppu_data_reads_are_buffered() {
    let mut bus = Bus::new(&bus_image(0, 1)).unwrap();
    set_vram_addr(&mut bus, 0x2000);
    bus.cpu_write_byte(0x2007, 0xA1).unwrap();
    bus.cpu_write_byte(0x2007, 0xA2).unwrap();
    assert_eq!(bus.ppu_get_registers().ppuaddr, 0x2002);
    set_vram_addr(&mut bus, 0x2000);
    assert_eq!(bus.cpu_read_byte(0x2007), Ok(0x00));
    assert_eq!(bus.cpu_read_byte_no_modify(0x2007), Ok(0xA1));
    assert_eq!(bus.ppu_get_registers().ppuaddr, 0x2001);
    assert_eq!(bus.cpu_read_byte(0x2007), Ok(0xA1));
    assert_eq!(bus.cpu_read_byte(0x2007), Ok(0xA2));
    // Character ROM is read through the buffer too.
    set_vram_addr(&mut bus, 0x0005);
    bus.cpu_read_byte(0x2007).unwrap();
    assert_eq!(bus.cpu_read_byte(0x2007), Ok(5));
    assert_eq!(bus.cpu_read_byte(0x2007), Ok(6));
}

#[test]
fn ppu_data_reads_palette_directly() {
    let mut bus = Bus::new(&bus_image(0, 1)).unwrap();
    set_vram_addr(&mut bus, 0x3F01);
    bus.cpu_write_byte(0x2007, 0x2A).unwrap();
    set_vram_addr(&mut bus, 0x3F21);
    assert_eq!(bus.cpu_read_byte(0x2007), Ok(0x2A));
    assert_eq!(bus.ppu_get_registers().ppuaddr, 0x3F22);
    assert_eq!(bus.palette().get_entry(0x3F01), 0x2A);
}

#[test]
fn ppu_data_steps_by_one_or_thirty_two() {
    let mut bus = Bus::new(&bus_image(0, 1)).unwrap();
    set_vram_addr(&mut bus, 0x2100);
    bus.cpu_write_byte(0x2007, 1).unwrap();
    assert_eq!(bus.ppu_get_registers().ppuaddr, 0x2101);
    bus.cpu_write_byte(0x2000, 0x04).unwrap();
    bus.cpu_write_byte(0x2007, 2).unwrap();
    assert_eq!(bus.ppu_get_registers().ppuaddr, 0x2121);
    assert_eq!(bus.ppu_read_nametable(0x2100), Ok(1));
    assert_eq!(bus.ppu_read_nametable(0x2101), Ok(2));
}

#[test]
fn ppu_addr_wraps_at_sixteen_kib() {
    let mut bus = Bus::new(&bus_image(0, 1)).unwrap();
    set_vram_addr(&mut bus, 0x6345);
    assert_eq!(bus.ppu_get_registers().ppuaddr, 0x2345);
    bus.cpu_write_byte(0x2006, 0xFF).unwrap();
    assert_eq!(bus.ppu_get_registers().ppuaddr, 0xFF45);
    bus.cpu_write_byte(0x2006, 0x10).unwrap();
    assert_eq!(bus.ppu_get_registers().ppuaddr, 0x3F10);
}

#[test]
fn ppu_data_outside_the_ppu_map_fails() {
    let mut bus = Bus::new(&bus_image(0, 1)).unwrap();
    set_vram_addr(&mut bus, 0x3000);
    assert_eq!(bus.cpu_write_byte(0x2007, 1), Err(NesError::BadAddress));
    assert_eq!(bus.cpu_read_byte(0x2007), Err(NesError::BadAddress));
    assert_eq!(bus.ppu_get_registers().ppuaddr, 0x3000);
}

#[test]
fn ppu_data_writes_chr_ram_only() {
    let mut rom = Bus::new(&bus_image(0, 1)).unwrap();
    set_vram_addr(&mut rom, 0x0010);
    assert_eq!(rom.cpu_write_byte(0x2007, 0xFF), Ok(()));
    assert_eq!(rom.ppu_get_registers().ppuaddr, 0x0010);
    assert_eq!(rom.ppu_get_pattern_entry(1, false)[0], 0x10);

    let mut ram = Bus::new(&bus_image(0, 0)).unwrap();
    set_vram_addr(&mut ram, 0x0010);
    assert_eq!(ram.cpu_write_byte(0x2007, 0xFF), Ok(()));
    assert_eq!(ram.ppu_get_registers().ppuaddr, 0x0011);
    assert_eq!(ram.ppu_get_pattern_entry(1, false)[0], 0xFF);
    assert_eq!(ram.ppu_get_pattern_entry(1, false)[1], 0x00);
}

#[test]
fn pattern_table_follows_ppuctrl() {
    let mut bus = Bus::new(&bus_image(0, 1)).unwrap();
    assert_eq!(bus.ppu_get_pattern_entry(0, true)[0], 0);
    assert_eq!(bus.ppu_get_pattern_entry(0, false)[0], 0);
    bus.cpu_write_byte(0x2000, 0x10).unwrap();
    assert_eq!(bus.ppu_get_pattern_entry(0, true)[0], (0x1000 % 239) as u8);
    assert_eq!(bus.ppu_get_pattern_entry(0, false)[0], 0);
    bus.cpu_write_byte(0x2000, 0x08).unwrap();
    assert_eq!(bus.ppu_get_pattern_entry(0, true)[0], 0);
    assert_eq!(bus.ppu_get_pattern_entry(3, false)[1], ((0x1000 + 49) % 239) as u8);
    assert_eq!(bus.ppu_get_pattern_entry(3, false).len(), 16);
}

#[test]
fn nametable_base_follows_ppuctrl() {
    let mut bus = Bus::new(&bus_image(0, 1)).unwrap();
    assert_eq!(bus.ppu_get_nametable_base_addr(), 0x2000);
    bus.cpu_write_byte(0x2000, 0x01).unwrap();
    assert_eq!(bus.ppu_get_nametable_base_addr(), 0x2400);
    bus.cpu_write_byte(0x2000, 0xFE).unwrap();
    assert_eq!(bus.ppu_get_nametable_base_addr(), 0x2800);
    bus.cpu_write_byte(0x2000, 0x83).unwrap();
    assert_eq!(bus.ppu_get_nametable_base_addr(), 0x2C00);
}

#[test]
fn audio_registers_are_placeholders() {
    let mut bus = Bus::new(&bus_image(0, 1)).unwrap();
    for addr in 0x4000..=0x4013usize {
        assert_eq!(bus.cpu_write_byte(addr, 0xFF), Ok(()));
        assert_eq!(bus.cpu_read_byte(addr), Ok(0));
    }
    assert_eq!(bus.cpu_write_byte(0x4015, 0xFF), Ok(()));
    assert_eq!(bus.cpu_read_byte(0x4015), Ok(0));
    assert_eq!(bus.cpu_write_byte(0x4017, 0xFF), Ok(()));
    assert_eq!(bus.cpu_read_byte(0x4017), Ok(0));
    assert_eq!(bus.cpu_read_byte(0x4014), Ok(0));
}

#[test]
fn unmapped_addresses_fail() {
    let mut bus = Bus::new(&bus_image(0, 1)).unwrap();
    assert_eq!(bus.cpu_read_byte(0x4018), Err(NesError::BadAddress));
    assert_eq!(bus.cpu_write_byte(0x401F, 1), Err(NesError::BadAddress));
    assert_eq!(bus.cpu_read_byte(0x10000), Err(NesError::BadAddress));
    assert_eq!(bus.cpu_write_byte(0x10000, 1), Err(NesError::BadAddress));
    assert_eq!(bus.cpu_read_byte(0x5000), Err(NesError::BadAddress));
    assert_eq!(bus.cpu_read_byte_no_modify(0x4018), Err(NesError::BadAddress));
}

#[test]
fn cartridge_is_read_and_not_written() {
    let mut bus = Bus::new(&bus_image(0, 1)).unwrap();
    assert_eq!(bus.cpu_read_byte(0x8003), Ok(3));
    assert_eq!(bus.cpu_read_byte(0xC003), Ok(3));
    assert_eq!(bus.cpu_write_byte(0x8003, 0xFF), Ok(()));
    assert_eq!(bus.cpu_write_byte(0x4020, 0xFF), Ok(()));
    assert_eq!(bus.cpu_read_byte(0x8003), Ok(3));
    assert_eq!(bus.cpu_read_exact(0x8003), Ok((3, 4)));
    assert_eq!(bus.cpu_read_exact(0xFFFF), Err(NesError::BadAddress));
    assert_eq!(bus.cartridge_header().prg_rom_size, 1);
}

#[test]
fn controller_is_read_through_the_bus() {
    let mut bus = Bus::new(&bus_image(0, 1)).unwrap();
    bus.set_controller_state(InputEvent { input_state: 0b1000_0001 });
    bus.cpu_write_byte(0x4016, 1).unwrap();
    bus.cpu_write_byte(0x4016, 0).unwrap();
    assert_eq!(bus.cpu_read_byte_no_modify(0x4016), Ok(1));
    assert_eq!(bus.cpu_read_byte_no_modify(0x4016), Ok(1));
    let mut seen = Vec::new();
    for _ in 0..9 {
        seen.push(bus.cpu_read_byte(0x4016).unwrap());
    }
    assert_eq!(seen, vec![1, 0, 0, 0, 0, 0, 0, 1, 1]);
    // Only bit 0 of the written byte is the strobe.
    bus.cpu_write_byte(0x4016, 0xFE).unwrap();
    assert_eq!(bus.cpu_read_byte(0x4016), Ok(1));
    assert_eq!(bus.cpu_read_byte(0x4016), Ok(0));
}
