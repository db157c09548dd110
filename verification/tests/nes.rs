use nesemu::controller::InputEvent;
use nesemu::error::{LoadError, NesError};
use nesemu::nes::{DMA_CYCLES, NES};
use nesemu::palette::Rgb;
use nesemu::screen::Screen;

/// An image with character RAM that holds `program` at 0x8000, with the
/// interrupt vector at 0x9000, where an RTI stands.
fn console_image(program: &[u8]) -> Vec<u8> {
    let mut image = vec![0x4E, 0x45, 0x53, 0x1A, 1, 0, 0, 0];
    image.extend_from_slice(&[0u8; 8]);
    let mut prg = vec![0xEAu8; 16384];
    prg[..program.len()].copy_from_slice(program);
    prg[0x1000] = 0x40;
    prg[0x3FFA] = 0x00;
    prg[0x3FFB] = 0x90;
    prg[0x3FFC] = 0x00;
    prg[0x3FFD] = 0x80;
    image.extend_from_slice(&prg);
    image
}

#[test]
fn console_needs_a_valid_cartridge() {
    assert!(matches!(NES::new(&[]), Err(LoadError::Truncated)));
    assert!(matches!(NES::new(&[0u8; 16]), Err(LoadError::InvalidMagic)));
    let mut other_mapper = console_image(&[]);
    other_mapper[6] = 0x10;
    assert!(matches!(NES::new(&other_mapper), Err(LoadError::UnsupportedMapper)));
    let mut no_program = vec![0x4E, 0x45, 0x53, 0x1A, 0, 0, 0, 0];
    no_program.extend_from_slice(&[0u8; 8]);
    assert!(matches!(NES::new(&no_program), Err(LoadError::NoResetVector)));
    assert_eq!(LoadError::NoResetVector.message(), "cartridge has no reset vector");
}

#[test]
fn console_memory_can_be_inspected() {
    // LDA $2002
    let mut nes = NES::new(&console_image(&[0xAD, 0x02, 0x20])).unwrap();
    assert_eq!(nes.write_memory(0x0010, 0x5A), Ok(()));
    assert_eq!(nes.read_memory(0x0810), Ok(0x5A));
    assert_eq!(nes.write_memory(0x2002, 0x80), Ok(()));
    assert_eq!(nes.read_memory(0x2002), Ok(0x80));
    assert_eq!(nes.read_memory(0x2002), Ok(0x80));
    assert_eq!(nes.read_memory(0x4018), Err(NesError::BadAddress));
    assert_eq!(nes.write_memory(0x4018, 1), Err(NesError::BadAddress));
    let line: String = nes.trace().unwrap().into_iter().collect();
    assert_eq!(
        line,
        format!("{:<42}     {}", "8000  AD 02 20  LDA $2002 = 80", "A:00 X:00 Y:00 P:24 SP:FD CYC:7")
    );
    assert_eq!(nes.read_memory(0x2002), Ok(0x80));
}

#[test]
fn console_starts_halted() {
    let mut nes = NES::new(&console_image(&[])).unwrap();
    let mut screen = Screen::new();
    assert!(nes.halted());
    assert!(!nes.run_frame(&mut screen));
    assert_eq!(nes.cpu().registers().program_counter, 0x8000);
    assert_eq!(nes.cpu().total_cycles(), 7);
}

#[test]
fn console_runs_whole_frames() {
    // JMP $8000
    let mut nes = NES::new(&console_image(&[0x4C, 0x00, 0x80])).unwrap();
    let mut screen = Screen::new();
    nes.set_halt(false);
    assert!(nes.run_frame(&mut screen));
    // The first frame begins 21 dots in; each jump takes nine dots.
    assert_eq!(nes.cpu().total_cycles(), 7 + 3 * 9925);
    assert!(nes.run_frame(&mut screen));
    assert!(!nes.halted());
    assert_eq!(nes.cpu().registers().program_counter, 0x8000);
    assert!(screen.pixels().iter().all(|p| *p == Rgb { r: 98, g: 98, b: 98 }));
}

#[test]
fn console_halts_on_an_unofficial_opcode() {
    // NOP; NOP; then a byte that is no instruction
    let mut nes = NES::new(&console_image(&[0xEA, 0xEA, 0x02])).unwrap();
    let mut screen = Screen::new();
    nes.set_halt(false);
    assert!(!nes.run_frame(&mut screen));
    assert!(nes.halted());
    assert!(!nes.run_frame(&mut screen));
}

#[test]
fn console_delivers_the_vblank_interrupt() {
    // LDA #$80; STA $2000; INX; JMP $8005. The handler at 0x9000 returns.
    let mut nes =
        NES::new(&console_image(&[0xA9, 0x80, 0x8D, 0x00, 0x20, 0xE8, 0x4C, 0x05, 0x80])).unwrap();
    let mut screen = Screen::new();
    nes.set_halt(false);
    assert!(nes.run_frame(&mut screen));
    // The interrupt sequence ran once in the frame: its eight cycles and
    // the six of the return are in the total.
    let cycles = nes.cpu().total_cycles();
    assert_eq!((cycles - 7 - 2 - 4 - 7 - 6) % 5, 0);
    assert_eq!(nes.bus().ppu_get_registers().ppuctrl & 0x80, 0x80);
    assert_eq!(nes.cpu().registers().stack_ptr, 0xFD);
}

#[test]
fn console_runs_oam_dma() {
    // LDA #$07; STA $0203; LDA #$02; STA $4014; JMP $800A
    let mut nes = NES::new(&console_image(&[
        0xA9, 0x07, 0x8D, 0x03, 0x02, 0xA9, 0x02, 0x8D, 0x14, 0x40, 0x4C, 0x0A, 0x80,
    ]))
    .unwrap();
    let mut screen = Screen::new();
    nes.set_halt(false);
    assert!(nes.run_frame(&mut screen));
    assert_eq!(nes.bus().oam()[3], 0x07);
    assert_eq!(nes.bus().oam()[2], 0x00);
    assert!(!nes.bus().pending_dma());
    assert_eq!(DMA_CYCLES, 513);
}

#[test]
fn console_hands_input_to_the_controller() {
    // LDA #$01; STA $4016; LDA #$00; STA $4016; LDA $4016; STA $00; LDA $4016; STA $01; JMP self
    let mut nes = NES::new(&console_image(&[
        0xA9, 0x01, 0x8D, 0x16, 0x40, 0xA9, 0x00, 0x8D, 0x16, 0x40, 0xAD, 0x16, 0x40, 0x85, 0x00,
        0xAD, 0x16, 0x40, 0x85, 0x01, 0x4C, 0x14, 0x80,
    ]))
    .unwrap();
    let mut screen = Screen::new();
    nes.set_input(InputEvent::from_buttons(false, true, false, false, false, false, false, false));
    nes.set_halt(false);
    assert!(nes.run_frame(&mut screen));
    // Button A is up and button B is down.
    assert_eq!(nes.read_memory(0x0000), Ok(0));
    assert_eq!(nes.read_memory(0x0001), Ok(1));
    assert_eq!(nes.cpu().registers().accumulator, 1);
}
