use nesemu::bus::Bus;
use nesemu::cpu::CPU;
use nesemu::palette::Rgb;
use nesemu::ppu::PPU;
use nesemu::ppu_model::OAMSprite;
use nesemu::screen::Screen;

/// An image with character RAM, whose program is NOPs, with the interrupt
/// vector at 0x9000 and the reset vector at 0x8000.
fn picture_image(flags1: u8) -> Vec<u8> {
    let mut image = vec![0x4E, 0x45, 0x53, 0x1A, 1, 0, flags1, 0];
    image.extend_from_slice(&[0u8; 8]);
    let mut prg = vec![0xEAu8; 16384];
    prg[0x3FFA] = 0x00;
    prg[0x3FFB] = 0x90;
    prg[0x3FFC] = 0x00;
    prg[0x3FFD] = 0x80;
    image.extend_from_slice(&prg);
    image
}

fn vram_write(bus: &mut Bus, addr: u16, bytes: &[u8]) {
    bus.cpu_read_byte(0x2002).unwrap();
    bus.cpu_write_byte(0x2006, (addr >> 8) as u8).unwrap();
    bus.cpu_write_byte(0x2006, (addr & 0xFF) as u8).unwrap();
    for b in bytes {
        bus.cpu_write_byte(0x2007, *b).unwrap();
    }
}

fn run_to(ppu: &mut PPU, screen: &mut Screen, bus: &mut Bus, scanline: usize, dot: usize) {
    while !(ppu.scanline() == scanline && ppu.dot() == dot) {
        ppu.step(screen, bus);
    }
}

/// A bus whose tables show tile 1, a solid tile of pattern value 1, at
/// column 1 of row 1 of the first nametable, and sprite 0 with the same
/// tile at column 12 of scanline 8.
fn scene(sprite_attribs: u8) -> Bus {
    let mut bus = Bus::new(&picture_image(0)).unwrap();
    let mut tile = vec![0xFFu8; 8];
    tile.extend_from_slice(&[0u8; 8]);
    vram_write(&mut bus, 0x0010, &tile);
    vram_write(&mut bus, 0x2021, &[1]);
    vram_write(&mut bus, 0x3F00, &[0x01, 0x16]);
    vram_write(&mut bus, 0x3F11, &[0x2A]);
    bus.cpu_write_byte(0x2003, 0).unwrap();
    for b in [8u8, 1, sprite_attribs, 12] {
        bus.cpu_write_byte(0x2004, b).unwrap();
    }
    // The other sprites lie below the picture.
    for _ in 1..64 {
        for b in [0xF0u8, 0, 0, 0] {
            bus.cpu_write_byte(0x2004, b).unwrap();
        }
    }
    bus
}

const BACKDROP: Rgb = Rgb { r: 0, g: 31, b: 178 };
const TILE: Rgb = Rgb { r: 199, g: 46, b: 0 };
const SPRITE: Rgb = Rgb { r: 67, g: 246, b: 17 };

#[test]
fn frame_has_89342_dots() {
    let mut bus = Bus::new(&picture_image(0)).unwrap();
    let mut ppu = PPU::new();
    let mut screen = Screen::new();
    assert_eq!((ppu.scanline(), ppu.dot()), (0, 21));
    let mut first = 0u32;
    loop {
        first += 1;
        if ppu.step(&mut screen, &mut bus) {
            break;
        }
    }
    assert_eq!(first, 89342 - 21);
    assert_eq!((ppu.scanline(), ppu.dot()), (0, 0));
    for _ in 0..2 {
        let mut dots = 0u32;
        loop {
            dots += 1;
            if ppu.step(&mut screen, &mut bus) {
                break;
            }
        }
        assert_eq!(dots, 89342);
        assert_eq!(dots, 262 * 341);
    }
}

#[test]
fn scanline_has_341_dots() {
    let mut bus = Bus::new(&picture_image(0)).unwrap();
    let mut ppu = PPU::new();
    let mut screen = Screen::new();
    for _ in 0..(341 - 21 - 1) {
        assert!(!ppu.step(&mut screen, &mut bus));
    }
    assert_eq!((ppu.scanline(), ppu.dot()), (0, 340));
    assert!(!ppu.step(&mut screen, &mut bus));
    assert_eq!((ppu.scanline(), ppu.dot()), (1, 0));
}

#[test]
fn vblank_is_set_at_241_and_cleared_at_261() {
    let mut bus = Bus::new(&picture_image(0)).unwrap();
    let mut ppu = PPU::new();
    let mut screen = Screen::new();
    run_to(&mut ppu, &mut screen, &mut bus, 241, 0);
    assert_eq!(bus.ppu_get_registers().ppustatus & 0x80, 0);
    ppu.step(&mut screen, &mut bus);
    assert_eq!(bus.ppu_get_registers().ppustatus & 0x80, 0x80);
    // The interrupt is not enabled.
    assert!(!ppu.generated_interrupt());
    // A read of the status clears the flag until the next frame.
    assert_eq!(bus.cpu_read_byte(0x2002), Ok(0x80));
    run_to(&mut ppu, &mut screen, &mut bus, 260, 340);
    assert_eq!(bus.cpu_read_byte(0x2002), Ok(0x00));
    bus.cpu_write_byte(0x2002, 0xC0).unwrap();
    run_to(&mut ppu, &mut screen, &mut bus, 261, 0);
    assert_eq!(bus.ppu_get_registers().ppustatus, 0xC0);
    ppu.step(&mut screen, &mut bus);
    assert_eq!(bus.ppu_get_registers().ppustatus, 0x00);
    run_to(&mut ppu, &mut screen, &mut bus, 241, 1);
    assert_eq!(bus.ppu_get_registers().ppustatus, 0x80);
}

#[test]
fn vblank_nmi() {
    let mut bus = Bus::new(&picture_image(0)).unwrap();
    let mut cpu = CPU::new(&mut bus).unwrap();
    let mut ppu = PPU::new();
    let mut screen = Screen::new();
    bus.cpu_write_byte(0x2000, 0x80).unwrap();
    run_to(&mut ppu, &mut screen, &mut bus, 241, 0);
    assert!(!ppu.generated_interrupt());
    ppu.step(&mut screen, &mut bus);
    assert_eq!((ppu.scanline(), ppu.dot()), (241, 1));
    let mut pending = ppu.generated_interrupt();
    assert!(pending);
    // The interrupt is taken once.
    assert!(!ppu.generated_interrupt());
    assert_eq!(cpu.step(&mut bus, &mut pending), Ok(8));
    assert!(!pending);
    let regs = cpu.registers();
    assert_eq!(regs.program_counter, 0x9000);
    assert_eq!(regs.status_register & 0x04, 0x04);
    assert_eq!(regs.stack_ptr, 0xFA);
    assert_eq!(bus.cpu_read_byte(0x01FD), Ok(0x80));
    assert_eq!(bus.cpu_read_byte(0x01FC), Ok(0x00));
    assert_eq!(bus.cpu_read_byte(0x01FB), Ok(0x24));
}

#[test]
fn background_and_sprite_are_drawn() {
    let mut bus = scene(0);
    let mut ppu = PPU::new();
    let mut screen = Screen::new();
    run_to(&mut ppu, &mut screen, &mut bus, 7, 340);
    assert_eq!(bus.ppu_get_registers().ppustatus & 0x40, 0);
    run_to(&mut ppu, &mut screen, &mut bus, 16, 0);
    let pixels = screen.pixels();
    assert_eq!(pixels[0], BACKDROP);
    assert_eq!(pixels[7 * 256 + 8], BACKDROP);
    for y in 8..16usize {
        assert_eq!(pixels[y * 256 + 7], BACKDROP);
        for x in 8..12usize {
            assert_eq!(pixels[y * 256 + x], TILE);
        }
        for x in 12..20usize {
            assert_eq!(pixels[y * 256 + x], SPRITE);
        }
        assert_eq!(pixels[y * 256 + 20], BACKDROP);
    }
    assert_eq!(pixels[15 * 256 + 255], BACKDROP);
    // Sprite 0 met the tile.
    assert_eq!(bus.ppu_get_registers().ppustatus & 0x40, 0x40);
    // The flag stays through vertical blank and goes at the pre-render line.
    run_to(&mut ppu, &mut screen, &mut bus, 261, 0);
    assert_eq!(bus.ppu_get_registers().ppustatus & 0x40, 0x40);
    ppu.step(&mut screen, &mut bus);
    assert_eq!(bus.ppu_get_registers().ppustatus & 0x40, 0);
}

#[test]
fn sprite_behind_the_background_shows_it() {
    let mut bus = scene(0x20);
    let mut ppu = PPU::new();
    let mut screen = Screen::new();
    run_to(&mut ppu, &mut screen, &mut bus, 16, 0);
    let pixels = screen.pixels();
    for x in 8..16usize {
        assert_eq!(pixels[8 * 256 + x], TILE);
    }
    for x in 16..20usize {
        assert_eq!(pixels[8 * 256 + x], SPRITE);
    }
    assert_eq!(bus.ppu_get_registers().ppustatus & 0x40, 0x40);
}

#[test]
fn sprite_over_the_backdrop_is_no_hit() {
    let mut bus = scene(0);
    // Move sprite 0 off the tile.
    bus.cpu_write_byte(0x2003, 3).unwrap();
    bus.cpu_write_byte(0x2004, 100).unwrap();
    let mut ppu = PPU::new();
    let mut screen = Screen::new();
    run_to(&mut ppu, &mut screen, &mut bus, 16, 0);
    let pixels = screen.pixels();
    assert_eq!(pixels[8 * 256 + 12], TILE);
    assert_eq!(pixels[8 * 256 + 100], SPRITE);
    assert_eq!(pixels[8 * 256 + 107], SPRITE);
    assert_eq!(pixels[8 * 256 + 108], BACKDROP);
    assert_eq!(bus.ppu_get_registers().ppustatus & 0x40, 0);
}

#[test]
fn at_most_eight_sprites_on_a_scanline() {
    let mut bus = scene(0);
    // Ten sprites on scanline 40, eight pixels apart.
    bus.cpu_write_byte(0x2003, 0).unwrap();
    for i in 0..10u8 {
        for b in [40u8, 1, 0, 16 * i] {
            bus.cpu_write_byte(0x2004, b).unwrap();
        }
    }
    let mut ppu = PPU::new();
    let mut screen = Screen::new();
    run_to(&mut ppu, &mut screen, &mut bus, 41, 0);
    let pixels = screen.pixels();
    for i in 0..8usize {
        assert_eq!(pixels[40 * 256 + 16 * i], SPRITE);
        assert_eq!(pixels[40 * 256 + 16 * i + 8], BACKDROP);
    }
    assert_eq!(pixels[40 * 256 + 16 * 8], BACKDROP);
    assert_eq!(pixels[40 * 256 + 16 * 9], BACKDROP);
}

#[test]
fn earlier_sprite_is_drawn_on_top() {
    let mut bus = scene(0);
    vram_write(&mut bus, 0x3F15, &[0x30]);
    // Sprite 1 uses palette 5 and overlaps sprite 0 by four pixels.
    bus.cpu_write_byte(0x2003, 4).unwrap();
    for b in [8u8, 1, 1, 16] {
        bus.cpu_write_byte(0x2004, b).unwrap();
    }
    let mut ppu = PPU::new();
    let mut screen = Screen::new();
    run_to(&mut ppu, &mut screen, &mut bus, 16, 0);
    let pixels = screen.pixels();
    let white = Rgb { r: 255, g: 255, b: 255 };
    for x in 12..20usize {
        assert_eq!(pixels[8 * 256 + x], SPRITE);
    }
    for x in 20..24usize {
        assert_eq!(pixels[8 * 256 + x], white);
    }
}

#[test]
fn horizontal_scroll_shifts_the_background() {
    let mut bus = scene(0);
    bus.cpu_read_byte(0x2002).unwrap();
    bus.cpu_write_byte(0x2005, 3).unwrap();
    bus.cpu_write_byte(0x2005, 0).unwrap();
    let mut ppu = PPU::new();
    let mut screen = Screen::new();
    // The scroll is taken over when the next frame is prepared.
    run_to(&mut ppu, &mut screen, &mut bus, 0, 0);
    run_to(&mut ppu, &mut screen, &mut bus, 16, 0);
    let pixels = screen.pixels();
    assert_eq!(pixels[8 * 256 + 4], BACKDROP);
    assert_eq!(pixels[8 * 256 + 5], TILE);
    assert_eq!(pixels[8 * 256 + 11], TILE);
    assert_eq!(pixels[8 * 256 + 20], BACKDROP);
}

#[test]
fn nametable_select_chooses_the_table() {
    // With vertical mirroring the table at 0x2400 is the second KiB.
    let mut bus = Bus::new(&picture_image(1)).unwrap();
    let mut tile = vec![0xFFu8; 8];
    tile.extend_from_slice(&[0u8; 8]);
    vram_write(&mut bus, 0x0010, &tile);
    vram_write(&mut bus, 0x2421, &[1]);
    vram_write(&mut bus, 0x3F00, &[0x01, 0x16]);
    bus.cpu_write_byte(0x2003, 0).unwrap();
    for _ in 0..64 {
        for b in [0xF0u8, 0, 0, 0] {
            bus.cpu_write_byte(0x2004, b).unwrap();
        }
    }
    bus.cpu_write_byte(0x2000, 0x01).unwrap();
    let mut ppu = PPU::new();
    let mut screen = Screen::new();
    run_to(&mut ppu, &mut screen, &mut bus, 16, 0);
    let pixels = screen.pixels();
    assert_eq!(pixels[8 * 256 + 7], BACKDROP);
    assert_eq!(pixels[8 * 256 + 8], TILE);
    assert_eq!(pixels[15 * 256 + 15], TILE);
    assert_eq!(pixels[15 * 256 + 16], BACKDROP);
    // The select is cleared when the next frame is prepared.
    run_to(&mut ppu, &mut screen, &mut bus, 0, 0);
    assert_eq!(bus.ppu_get_registers().ppuctrl, 0x00);
    run_to(&mut ppu, &mut screen, &mut bus, 16, 0);
    assert_eq!(screen.pixels()[8 * 256 + 8], BACKDROP);
}

#[test]
fn sprites_are_flipped() {
    let mut bus = scene(0);
    // Tile 2 has its left column and its top row set.
    let mut tile = vec![0xFFu8, 0x80, 0x80, 0x80, 0x80, 0x80, 0x80, 0x80];
    tile.extend_from_slice(&[0u8; 8]);
    vram_write(&mut bus, 0x0020, &tile);
    bus.cpu_write_byte(0x2003, 4).unwrap();
    for (i, attribs) in [0x00u8, 0x40, 0x80, 0xC0].iter().enumerate() {
        for b in [100u8, 2, *attribs, 40 + 16 * i as u8] {
            bus.cpu_write_byte(0x2004, b).unwrap();
        }
    }
    let mut ppu = PPU::new();
    let mut screen = Screen::new();
    run_to(&mut ppu, &mut screen, &mut bus, 108, 0);
    let pixels = screen.pixels();
    let top = 100 * 256;
    let bottom = 107 * 256;
    // Not flipped: top row and left column.
    assert_eq!(pixels[top + 47], SPRITE);
    assert_eq!(pixels[bottom + 40], SPRITE);
    assert_eq!(pixels[bottom + 47], BACKDROP);
    // Flipped horizontally: top row and right column.
    assert_eq!(pixels[top + 56], SPRITE);
    assert_eq!(pixels[bottom + 56], BACKDROP);
    assert_eq!(pixels[bottom + 63], SPRITE);
    // Flipped vertically: bottom row and left column.
    assert_eq!(pixels[top + 72], SPRITE);
    assert_eq!(pixels[top + 79], BACKDROP);
    assert_eq!(pixels[bottom + 79], SPRITE);
    // Flipped both ways: bottom row and right column.
    assert_eq!(pixels[top + 88], BACKDROP);
    assert_eq!(pixels[top + 95], SPRITE);
    assert_eq!(pixels[bottom + 88], SPRITE);
}

/// A scene with sprites of sixteen rows: sprite 1 has the tile index 3, so
/// that its upper half is pattern 2 and its lower half pattern 3 of the
/// table at 0x1000.
fn tall_scene(sprite_attribs: u8) -> Bus {
    let mut bus = scene(0);
    let mut upper = vec![0xFFu8; 8];
    upper.extend_from_slice(&[0u8; 8]);
    let mut lower = vec![0x00u8; 8];
    lower.extend_from_slice(&[0xFFu8; 8]);
    vram_write(&mut bus, 0x1020, &upper);
    vram_write(&mut bus, 0x1030, &lower);
    vram_write(&mut bus, 0x3F12, &[0x30]);
    bus.cpu_write_byte(0x2003, 4).unwrap();
    for b in [50u8, 3, sprite_attribs, 60] {
        bus.cpu_write_byte(0x2004, b).unwrap();
    }
    bus.cpu_write_byte(0x2000, 0x20).unwrap();
    bus
}

#[test]
fn tall_sprites_have_two_patterns() {
    let mut bus = tall_scene(0);
    let mut ppu = PPU::new();
    let mut screen = Screen::new();
    run_to(&mut ppu, &mut screen, &mut bus, 70, 0);
    let pixels = screen.pixels();
    let white = Rgb { r: 255, g: 255, b: 255 };
    assert_eq!(pixels[49 * 256 + 60], BACKDROP);
    for y in 50..58usize {
        assert_eq!(pixels[y * 256 + 60], SPRITE);
        assert_eq!(pixels[y * 256 + 67], SPRITE);
        assert_eq!(pixels[y * 256 + 68], BACKDROP);
    }
    for y in 58..66usize {
        assert_eq!(pixels[y * 256 + 60], white);
        assert_eq!(pixels[y * 256 + 67], white);
    }
    assert_eq!(pixels[66 * 256 + 60], BACKDROP);
}

#[test]
fn tall_sprites_flip_as_a_whole() {
    let mut bus = tall_scene(0x80);
    let mut ppu = PPU::new();
    let mut screen = Screen::new();
    run_to(&mut ppu, &mut screen, &mut bus, 70, 0);
    let pixels = screen.pixels();
    let white = Rgb { r: 255, g: 255, b: 255 };
    for y in 50..58usize {
        assert_eq!(pixels[y * 256 + 60], white);
    }
    for y in 58..66usize {
        assert_eq!(pixels[y * 256 + 60], SPRITE);
    }
    assert_eq!(pixels[66 * 256 + 60], BACKDROP);
}

#[test]
fn invalid_palette_entry_is_drawn_black() {
    let mut bus = scene(0);
    vram_write(&mut bus, 0x3F01, &[0x7F]);
    let mut ppu = PPU::new();
    let mut screen = Screen::new();
    run_to(&mut ppu, &mut screen, &mut bus, 16, 0);
    assert_eq!(screen.pixels()[8 * 256 + 8], Rgb { r: 0, g: 0, b: 0 });
}

#[test]
fn pattern_pixels_come_from_two_planes() {
    let mut tile = [0u8; 16];
    tile[0] = 0b1000_0001;
    tile[8] = 0b1100_0000;
    tile[7] = 0b0000_0001;
    assert_eq!(PPU::compute_palette_idx(&tile, 0, 0, false, false), 3);
    assert_eq!(PPU::compute_palette_idx(&tile, 1, 0, false, false), 2);
    assert_eq!(PPU::compute_palette_idx(&tile, 7, 0, false, false), 1);
    assert_eq!(PPU::compute_palette_idx(&tile, 2, 0, false, false), 0);
    assert_eq!(PPU::compute_palette_idx(&tile, 7, 0, true, false), 3);
    assert_eq!(PPU::compute_palette_idx(&tile, 6, 0, true, false), 2);
    assert_eq!(PPU::compute_palette_idx(&tile, 7, 7, false, false), 1);
    assert_eq!(PPU::compute_palette_idx(&tile, 7, 0, false, true), 1);
    assert_eq!(PPU::compute_palette_idx(&tile, 0, 7, false, true), 3);
    assert_eq!(PPU::compute_palette_idx(&tile, 0, 8, false, false), 3);
    assert_eq!(PPU::compute_bg_palette_idx(&tile, 1, 16), 2);
}

#[test]
fn attribute_byte_holds_four_palettes() {
    let attrib = 0b11_10_01_00;
    assert_eq!(PPU::compute_bg_palette_num(attrib, 0, 0), 0);
    assert_eq!(PPU::compute_bg_palette_num(attrib, 1, 1), 0);
    assert_eq!(PPU::compute_bg_palette_num(attrib, 2, 0), 1);
    assert_eq!(PPU::compute_bg_palette_num(attrib, 3, 5), 1);
    assert_eq!(PPU::compute_bg_palette_num(attrib, 0, 2), 2);
    assert_eq!(PPU::compute_bg_palette_num(attrib, 5, 3), 2);
    assert_eq!(PPU::compute_bg_palette_num(attrib, 2, 2), 3);
    assert_eq!(PPU::compute_bg_palette_num(attrib, 31, 31), 3);
    assert_eq!(PPU::compute_bg_palette_num(0b01_00_00_00, 6, 6), 1);
}

#[test]
fn sprite_is_read_from_four_bytes() {
    let sprite = OAMSprite::from(&[9, 8, 7, 6], true);
    assert_eq!(
        sprite,
        OAMSprite { y_pixel_coord: 9, tile_idx: 8, attribs: 7, x_pixel_coord: 6, sprite_0: true }
    );
}
