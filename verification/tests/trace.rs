use nesemu::alu::CPURegisters;
use nesemu::bus::Bus;
use nesemu::cpu::CPU;
use nesemu::error::NesError;
use nesemu::trace::write_opcode;

fn trace_image(program: &[u8], reset: u16) -> Vec<u8> {
    let mut image = vec![0x4E, 0x45, 0x53, 0x1A, 1, 1, 0, 0];
    image.extend_from_slice(&[0u8; 8]);
    let mut prg = vec![0xEAu8; 16384];
    prg[..program.len()].copy_from_slice(program);
    prg[0x3FFC] = (reset & 0xFF) as u8;
    prg[0x3FFD] = (reset >> 8) as u8;
    image.extend_from_slice(&prg);
    image.extend_from_slice(&[0u8; 8192]);
    image
}

fn line_at(bus: &mut Bus, regs: CPURegisters, cycles: u64) -> String {
    write_opcode(&regs, cycles, bus).unwrap().into_iter().collect()
}

fn expected(instruction: &str, registers: &str) -> String {
    format!("{:<42}     {}", instruction, registers)
}

fn regs_at(pc: u16) -> CPURegisters {
    CPURegisters {
        accumulator: 0x1A,
        x_reg: 0x02,
        y_reg: 0x03,
        stack_ptr: 0xFB,
        program_counter: pc,
        status_register: 0x65,
    }
}

const REGS: &str = "A:1A X:02 Y:03 P:65 SP:FB";

#[test]
fn trace_of_the_first_instruction() {
    let mut bus = Bus::new(&trace_image(&[0x4C, 0xF5, 0xC5], 0xC000)).unwrap();
    let cpu = CPU::new(&mut bus).unwrap();
    let line: String = cpu.write_opcode(&mut bus).unwrap().into_iter().collect();
    assert_eq!(line, expected("C000  4C F5 C5  JMP $C5F5", "A:00 X:00 Y:00 P:24 SP:FD CYC:7"));
    assert_eq!(line.len(), 78);
    assert_eq!(line.find("A:00"), Some(47));
}

#[test]
fn trace_of_one_byte_instructions() {
    let mut bus = Bus::new(&trace_image(&[0xEA, 0x0A, 0x60], 0x8000)).unwrap();
    assert_eq!(
        line_at(&mut bus, regs_at(0x8000), 0),
        expected("8000  EA        NOP ", &format!("{} CYC:0", REGS))
    );
    assert_eq!(
        line_at(&mut bus, regs_at(0x8001), 1234567890123),
        expected("8001  0A        ASL A ", &format!("{} CYC:1234567890123", REGS))
    );
    assert_eq!(
        line_at(&mut bus, regs_at(0x8002), u64::MAX),
        expected("8002  60        RTS ", &format!("{} CYC:18446744073709551615", REGS))
    );
}

#[test]
fn trace_of_two_byte_instructions() {
    let program = [
        0xA9, 0x10, // LDA #$10
        0xD0, 0xFC, // BNE -4
        0xA5, 0x33, // LDA $33
        0xB5, 0xFF, // LDA $FF,X
        0xB6, 0x10, // LDX $10,Y
        0xA1, 0x80, // LDA ($80,X)
        0xB1, 0x89, // LDA ($89),Y
        0xF0, 0x70, // BEQ +112
    ];
    let mut bus = Bus::new(&trace_image(&program, 0x8000)).unwrap();
    bus.cpu_write_byte(0x0033, 0x44).unwrap();
    bus.cpu_write_byte(0x0001, 0x55).unwrap();
    bus.cpu_write_byte(0x0013, 0x66).unwrap();
    bus.cpu_write_byte(0x0082, 0x00).unwrap();
    bus.cpu_write_byte(0x0083, 0x02).unwrap();
    bus.cpu_write_byte(0x0200, 0x5A).unwrap();
    bus.cpu_write_byte(0x0089, 0xFF).unwrap();
    bus.cpu_write_byte(0x008A, 0x02).unwrap();
    bus.cpu_write_byte(0x0302, 0x77).unwrap();
    let tail = format!("{} CYC:9", REGS);
    assert_eq!(line_at(&mut bus, regs_at(0x8000), 9), expected("8000  A9 10     LDA #$10", &tail));
    assert_eq!(line_at(&mut bus, regs_at(0x8002), 9), expected("8002  D0 FC     BNE $8000", &tail));
    assert_eq!(
        line_at(&mut bus, regs_at(0x8004), 9),
        expected("8004  A5 33     LDA $33 = 44", &tail)
    );
    assert_eq!(
        line_at(&mut bus, regs_at(0x8006), 9),
        expected("8006  B5 FF     LDA $FF,X @ 01 = 55", &tail)
    );
    assert_eq!(
        line_at(&mut bus, regs_at(0x8008), 9),
        expected("8008  B6 10     LDX $10,Y @ 13 = 66", &tail)
    );
    assert_eq!(
        line_at(&mut bus, regs_at(0x800A), 9),
        expected("800A  A1 80     LDA ($80,X) @ 82 = 0200 = 5A", &tail)
    );
    assert_eq!(
        line_at(&mut bus, regs_at(0x800C), 9),
        expected("800C  B1 89     LDA ($89),Y = 02FF @ 0302 = 77", &tail)
    );
    assert_eq!(line_at(&mut bus, regs_at(0x800E), 9), expected("800E  F0 70     BEQ $8080", &tail));
}

#[test]
fn trace_of_three_byte_instructions() {
    let program = [
        0x8D, 0x00, 0x03, // STA $0300
        0x20, 0x34, 0x12, // JSR $1234
        0xBD, 0xFF, 0x02, // LDA $02FF,X
        0xB9, 0x00, 0x03, // LDA $0300,Y
        0x6C, 0xFF, 0x03, // JMP ($03FF)
    ];
    let mut bus = Bus::new(&trace_image(&program, 0x8000)).unwrap();
    bus.cpu_write_byte(0x0300, 0x40).unwrap();
    bus.cpu_write_byte(0x0301, 0x41).unwrap();
    bus.cpu_write_byte(0x0303, 0x43).unwrap();
    bus.cpu_write_byte(0x03FF, 0x80).unwrap();
    let tail = format!("{} CYC:100", REGS);
    assert_eq!(
        line_at(&mut bus, regs_at(0x8000), 100),
        expected("8000  8D 00 03  STA $0300 = 40", &tail)
    );
    assert_eq!(line_at(&mut bus, regs_at(0x8003), 100), expected("8003  20 34 12  JSR $1234", &tail));
    assert_eq!(
        line_at(&mut bus, regs_at(0x8006), 100),
        expected("8006  BD FF 02  LDA $02FF,X @ 0301 = 41", &tail)
    );
    assert_eq!(
        line_at(&mut bus, regs_at(0x8009), 100),
        expected("8009  B9 00 03  LDA $0300,Y @ 0303 = 43", &tail)
    );
    assert_eq!(
        line_at(&mut bus, regs_at(0x800C), 100),
        expected("800C  6C FF 03  JMP ($03FF) = 4080", &tail)
    );
}

#[test]
fn trace_changes_nothing() {
    // LDA $2002
    let mut bus = Bus::new(&trace_image(&[0xAD, 0x02, 0x20], 0x8000)).unwrap();
    bus.cpu_write_byte(0x2002, 0x80).unwrap();
    let tail = format!("{} CYC:1", REGS);
    for _ in 0..2 {
        assert_eq!(
            line_at(&mut bus, regs_at(0x8000), 1),
            expected("8000  AD 02 20  LDA $2002 = 80", &tail)
        );
    }
    assert_eq!(bus.ppu_get_registers().ppustatus, 0x80);
}

#[test]
fn trace_fails_where_nothing_can_be_read() {
    // LDA $4018
    let mut bus = Bus::new(&trace_image(&[0xAD, 0x18, 0x40, 0x02], 0x8000)).unwrap();
    assert_eq!(write_opcode(&regs_at(0x8000), 0, &mut bus), Err(NesError::BadAddress));
    assert_eq!(write_opcode(&regs_at(0x8003), 0, &mut bus), Err(NesError::Decode));
    assert_eq!(write_opcode(&regs_at(0x4020), 0, &mut bus), Err(NesError::BadAddress));
}
