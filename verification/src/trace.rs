//! The execution trace: one line of text for the instruction that the CPU
//! is about to run, with its bytes, its operand, the registers and the
//! cycle count.

use vstd::prelude::*;
use crate::alu::CPURegisters;
use crate::bus::Bus;
use crate::bus_model::{word, BusModel};
use crate::cpu::{indirect_high_addr, make_word, offset16, offset8};
use crate::cpu_model::{add16, add8, branch_target, indirect_high};
use crate::error::NesError;
use crate::instruction::{
    decode, mnemonic_letters, mode_len, opcode_entry, operand_len, AddressMode, Mnemonic,
};

verus! {

/// The width to which the instruction part of a line is filled.
pub const INSTRUCTION_WIDTH: usize = 42;

/// The hexadecimal digit for `n`.
pub open spec fn hex_digit(n: int) -> char {
    if n == 0 {
        '0'
    } else if n == 1 {
        '1'
    } else if n == 2 {
        '2'
    } else if n == 3 {
        '3'
    } else if n == 4 {
        '4'
    } else if n == 5 {
        '5'
    } else if n == 6 {
        '6'
    } else if n == 7 {
        '7'
    } else if n == 8 {
        '8'
    } else if n == 9 {
        '9'
    } else if n == 10 {
        'A'
    } else if n == 11 {
        'B'
    } else if n == 12 {
        'C'
    } else if n == 13 {
        'D'
    } else if n == 14 {
        'E'
    } else {
        'F'
    }
}

/// `s` followed by the two hexadecimal digits of `b`.
#[verifier::opaque]
pub open spec fn put_hex2(s: Seq<char>, b: u8) -> Seq<char> {
    s.push(hex_digit((b / 16) as int)).push(hex_digit((b % 16) as int))
}

/// `s` followed by the four hexadecimal digits of `w`.
#[verifier::opaque]
pub open spec fn put_hex4(s: Seq<char>, w: u16) -> Seq<char> {
    put_hex2(put_hex2(s, (w / 256) as u8), (w % 256) as u8)
}

/// `s` followed by the hexadecimal digits of `w`, at least two of them.
#[verifier::opaque]
pub open spec fn put_hex_min2(s: Seq<char>, w: u16) -> Seq<char> {
    if w < 0x100 {
        put_hex2(s, w as u8)
    } else if w < 0x1000 {
        put_hex2(s.push(hex_digit((w / 256) as int)), (w % 256) as u8)
    } else {
        put_hex4(s, w)
    }
}

/// `s` followed by the decimal digits of `n`.
pub open spec fn put_decimal(s: Seq<char>, n: u64) -> Seq<char>
    decreases n,
{
    if n < 10 {
        s.push(hex_digit(n as int))
    } else {
        put_decimal(s, n / 10).push(hex_digit((n % 10) as int))
    }
}

/// `s` followed by `n` spaces.
pub open spec fn put_spaces(s: Seq<char>, n: int) -> Seq<char>
    decreases n,
{
    if n <= 0 {
        s
    } else {
        put_spaces(s.push(' '), n - 1)
    }
}

/// `s` followed by the text ` = `.
#[verifier::opaque]
pub open spec fn put_equals(s: Seq<char>) -> Seq<char> {
    s.push(' ').push('=').push(' ')
}

/// `s` followed by the text ` @ `.
#[verifier::opaque]
pub open spec fn put_at(s: Seq<char>) -> Seq<char> {
    s.push(' ').push('@').push(' ')
}

/// `s` followed by the three letters of `mn` and a space.
#[verifier::opaque]
pub open spec fn put_mnemonic(s: Seq<char>, mn: Mnemonic) -> Seq<char> {
    let l = mnemonic_letters(mn);
    s.push(l.0).push(l.1).push(l.2).push(' ')
}

/// `s` followed by the registers: `A:.. X:.. Y:.. P:.. SP:..`.
#[verifier::opaque]
pub open spec fn put_registers(s: Seq<char>, regs: CPURegisters) -> Seq<char> {
    let a = put_hex2(s.push('A').push(':'), regs.accumulator).push(' ');
    let x = put_hex2(a.push('X').push(':'), regs.x_reg).push(' ');
    let y = put_hex2(x.push('Y').push(':'), regs.y_reg).push(' ');
    let p = put_hex2(y.push('P').push(':'), regs.status_register).push(' ');
    put_hex2(p.push('S').push('P').push(':'), regs.stack_ptr)
}

/// What is known of the instruction at the program counter.
pub struct Fetched {
    pub code: u8,
    pub lo: u8,
    pub hi: u8,
    pub mnemonic: Mnemonic,
    pub mode: AddressMode,
}

/// The byte at `addr`, as a read that changes nothing shows it; 0 with
/// the failure where nothing answers.
#[verifier::opaque]
pub open spec fn look(bus: BusModel, addr: int, fault: Option<NesError>) -> (u8, Option<NesError>) {
    match bus.peek(addr) {
        Ok(b) => (b, fault),
        Err(e) => (0u8, if fault is Some { fault } else { Some(e) }),
    }
}

/// The instruction at the address `pc`, and the first failure met while
/// it was looked at.
#[verifier::opaque]
pub open spec fn fetched_at(bus: BusModel, pc: u16) -> (Fetched, Option<NesError>) {
    let (code, f0) = look(bus, pc as int, None);
    let entry = if f0 is None { opcode_entry(code) } else { None };
    match entry {
        None => (
            Fetched { code, lo: 0, hi: 0, mnemonic: Mnemonic::NOP, mode: AddressMode::IMPLIED },
            if f0 is Some { f0 } else { Some(NesError::Decode) },
        ),
        Some((mnemonic, mode, _)) => {
            let (lo, f1) = if mode_len(mode) >= 2 {
                look(bus, add16(pc, 1) as int, f0)
            } else {
                (0u8, f0)
            };
            let (hi, f2) = if mode_len(mode) >= 3 {
                look(bus, add16(pc, 2) as int, f1)
            } else {
                (0u8, f1)
            };
            (Fetched { code, lo, hi, mnemonic, mode }, f2)
        },
    }
}

/// `s` followed by the bytes of the instruction, filled up with spaces,
/// and its mnemonic.
#[verifier::opaque]
pub open spec fn put_bytes(s: Seq<char>, f: Fetched) -> Seq<char> {
    let len = mode_len(f.mode);
    if len == 1 {
        put_mnemonic(put_spaces(put_hex2(s, f.code), 8), f.mnemonic)
    } else if len == 2 {
        put_mnemonic(put_spaces(put_hex2(put_hex2(s, f.code).push(' '), f.lo), 5), f.mnemonic)
    } else {
        put_mnemonic(
            put_spaces(put_hex2(put_hex2(put_hex2(s, f.code).push(' '), f.lo).push(' '), f.hi), 2),
            f.mnemonic,
        )
    }
}

/// `s` followed by an operand that goes through a pointer in memory, with
/// the address found and the byte there; and the first failure met.
#[verifier::opaque]
pub open spec fn put_pointer_operand(
    s: Seq<char>,
    f: Fetched,
    regs: CPURegisters,
    bus: BusModel,
    fault: Option<NesError>,
) -> (Seq<char>, Option<NesError>) {
    let abs = word(f.lo, f.hi);
    match f.mode {
        AddressMode::INDIRECTX => {
            let ptr = add8(f.lo, regs.x_reg as int);
            let (l, f1) = look(bus, ptr as int, fault);
            let (h, f2) = look(bus, add8(ptr, 1) as int, f1);
            let (v, f3) = look(bus, word(l, h) as int, f2);
            let t0 = put_hex2(s.push('(').push('$'), f.lo).push(',').push('X').push(')');
            let t1 = put_equals(put_hex2(put_at(t0), ptr));
            (put_hex2(put_equals(put_hex4(t1, word(l, h))), v), f3)
        },
        AddressMode::INDIRECTY => {
            let (l, f1) = look(bus, f.lo as int, fault);
            let (h, f2) = look(bus, add8(f.lo, 1) as int, f1);
            let addr = add16(word(l, h), regs.y_reg as int);
            let (v, f3) = look(bus, addr as int, f2);
            let t0 = put_hex2(s.push('(').push('$'), f.lo).push(')').push(',').push('Y');
            let t1 = put_at(put_hex4(put_equals(t0), word(l, h)));
            (put_hex2(put_equals(put_hex4(t1, addr)), v), f3)
        },
        _ => {
            let (l, f1) = look(bus, abs as int, fault);
            let (h, f2) = look(bus, indirect_high(abs) as int, f1);
            let t0 = put_hex4(s.push('(').push('$'), abs).push(')');
            (put_hex4(put_equals(t0), word(l, h)), f2)
        },
    }
}

/// `s` followed by an operand in the zero page, with the address that it
/// names and the byte there; and the first failure met.
#[verifier::opaque]
pub open spec fn put_zero_page_operand(
    s: Seq<char>,
    f: Fetched,
    regs: CPURegisters,
    bus: BusModel,
    fault: Option<NesError>,
) -> (Seq<char>, Option<NesError>) {
    match f.mode {
        AddressMode::ZEROPAGE => {
            let (v, f1) = look(bus, f.lo as int, fault);
            (put_hex2(put_equals(put_hex2(s.push('$'), f.lo)), v), f1)
        },
        _ => {
            let x = f.mode == AddressMode::ZEROPAGEX;
            let addr = add8(f.lo, if x { regs.x_reg as int } else { regs.y_reg as int });
            let (v, f1) = look(bus, addr as int, fault);
            let t0 = put_hex2(s.push('$'), f.lo).push(',').push(if x { 'X' } else { 'Y' });
            (put_hex2(put_equals(put_hex2(put_at(t0), addr)), v), f1)
        },
    }
}

/// `s` followed by an absolute operand, with the address that it names and
/// the byte there; and the first failure met.
#[verifier::opaque]
pub open spec fn put_absolute_operand(
    s: Seq<char>,
    f: Fetched,
    regs: CPURegisters,
    bus: BusModel,
    fault: Option<NesError>,
) -> (Seq<char>, Option<NesError>) {
    let abs = word(f.lo, f.hi);
    match f.mode {
        AddressMode::ABSOLUTE(reads) => {
            if reads {
                let (v, f1) = look(bus, abs as int, fault);
                (put_hex2(put_equals(put_hex4(s.push('$'), abs)), v), f1)
            } else {
                (put_hex4(s.push('$'), abs), fault)
            }
        },
        _ => {
            let x = f.mode == AddressMode::ABSOLUTEX;
            let addr = add16(abs, if x { regs.x_reg as int } else { regs.y_reg as int });
            let (v, f1) = look(bus, addr as int, fault);
            let t0 = put_hex4(s.push('$'), abs).push(',').push(if x { 'X' } else { 'Y' });
            (put_hex2(put_equals(put_hex4(put_at(t0), addr)), v), f1)
        },
    }
}

/// `s` followed by the operand of the instruction as the assembler writes
/// it, with the address that it names and the byte found there; and the
/// first failure met while memory was looked at. `next` is the address of
/// the instruction that follows.
#[verifier::opaque]
pub open spec fn put_operand(
    s: Seq<char>,
    f: Fetched,
    regs: CPURegisters,
    next: u16,
    bus: BusModel,
    fault: Option<NesError>,
) -> (Seq<char>, Option<NesError>) {
    match f.mode {
        AddressMode::IMPLIED => (s, fault),
        AddressMode::ACCUMULATOR => (s.push('A').push(' '), fault),
        AddressMode::IMMEDIATE => (put_hex2(s.push('#').push('$'), f.lo), fault),
        AddressMode::RELATIVE => (put_hex_min2(s.push('$'), branch_target(next, f.lo)), fault),
        AddressMode::ZEROPAGE | AddressMode::ZEROPAGEX | AddressMode::ZEROPAGEY => {
            put_zero_page_operand(s, f, regs, bus, fault)
        },
        AddressMode::INDIRECTX | AddressMode::INDIRECTY | AddressMode::INDIRECT => {
            put_pointer_operand(s, f, regs, bus, fault)
        },
        _ => put_absolute_operand(s, f, regs, bus, fault),
    }
}

/// The line for the instruction at the program counter of `regs`, after
/// `cycles` cycles: the address, the bytes and the mnemonic, the operand,
/// spaces up to column 42, five more spaces, the registers and the cycle
/// count; or the first failure met while memory was looked at.
pub open spec fn trace_line(regs: CPURegisters, cycles: u64, bus: BusModel) -> Result<
    Seq<char>,
    NesError,
> {
    let pc = regs.program_counter;
    let (f, f0) = fetched_at(bus, pc);
    let head = put_bytes(put_hex4(Seq::empty(), pc).push(' ').push(' '), f);
    let (text, f1) = put_operand(head, f, regs, add16(pc, mode_len(f.mode) as int), bus, f0);
    match f1 {
        Some(e) => Err(e),
        None => Ok(
            put_decimal(
                put_registers(
                    put_spaces(
                        put_spaces(text, if text.len() >= 42 { 0 } else { 42 - text.len() }),
                        5,
                    ),
                    regs,
                ).push(' ').push('C').push('Y').push('C').push(':'),
                cycles,
            ),
        ),
    }
}

/// The hexadecimal digit for `n`.
fn digit(n: u8) -> (r: char)
    requires
        n < 16,
    ensures
        r == hex_digit(n as int),
{
    if n == 0 {
        '0'
    } else if n == 1 {
        '1'
    } else if n == 2 {
        '2'
    } else if n == 3 {
        '3'
    } else if n == 4 {
        '4'
    } else if n == 5 {
        '5'
    } else if n == 6 {
        '6'
    } else if n == 7 {
        '7'
    } else if n == 8 {
        '8'
    } else if n == 9 {
        '9'
    } else if n == 10 {
        'A'
    } else if n == 11 {
        'B'
    } else if n == 12 {
        'C'
    } else if n == 13 {
        'D'
    } else if n == 14 {
        'E'
    } else {
        'F'
    }
}

/// Appends the two hexadecimal digits of `b`.
fn write_hex2(out: &mut Vec<char>, b: u8)
    ensures
        final(out)@ == put_hex2(old(out)@, b),
{
    proof {
        reveal(put_hex2);
    }
    out.push(digit(b / 16));
    out.push(digit(b % 16));
}

/// Appends the four hexadecimal digits of `w`.
fn write_hex4(out: &mut Vec<char>, w: u16)
    ensures
        final(out)@ == put_hex4(old(out)@, w),
{
    proof {
        reveal(put_hex4);
    }
    write_hex2(out, (w / 256) as u8);
    write_hex2(out, (w % 256) as u8);
}

/// Appends the hexadecimal digits of `w`, at least two of them.
fn write_hex_min2(out: &mut Vec<char>, w: u16)
    ensures
        final(out)@ == put_hex_min2(old(out)@, w),
{
    proof {
        reveal(put_hex_min2);
    }
    if w < 0x100 {
        write_hex2(out, w as u8);
    } else if w < 0x1000 {
        out.push(digit((w / 256) as u8));
        write_hex2(out, (w % 256) as u8);
    } else {
        write_hex4(out, w);
    }
}

/// Appends the decimal digits of `n`.
fn write_decimal(out: &mut Vec<char>, n: u64)
    ensures
        final(out)@ == put_decimal(old(out)@, n),
    decreases n,
{
    if n >= 10 {
        write_decimal(out, n / 10);
    }
    out.push(digit((n % 10) as u8));
}

/// Appends `n` spaces.
fn write_spaces(out: &mut Vec<char>, n: usize)
    ensures
        final(out)@ == put_spaces(old(out)@, n as int),
{
    let mut i: usize = 0;
    while i < n
        invariant
            i <= n,
            put_spaces(out@, n - i) == put_spaces(old(out)@, n as int),
        decreases n - i,
    {
        out.push(' ');
        i += 1;
    }
}

/// Appends the text ` = `.
fn write_equals(out: &mut Vec<char>)
    ensures
        final(out)@ == put_equals(old(out)@),
{
    proof {
        reveal(put_equals);
    }
    out.push(' ');
    out.push('=');
    out.push(' ');
}

/// Appends the text ` @ `.
fn write_at(out: &mut Vec<char>)
    ensures
        final(out)@ == put_at(old(out)@),
{
    proof {
        reveal(put_at);
    }
    out.push(' ');
    out.push('@');
    out.push(' ');
}

/// Appends the three letters of `mn` and a space.
fn write_mnemonic(out: &mut Vec<char>, mn: Mnemonic)
    ensures
        final(out)@ == put_mnemonic(old(out)@, mn),
{
    proof {
        reveal(put_mnemonic);
    }
    let l = mn.letters();
    out.push(l.0);
    out.push(l.1);
    out.push(l.2);
    out.push(' ');
}

/// Appends the registers.
fn write_registers(out: &mut Vec<char>, regs: &CPURegisters)
    ensures
        final(out)@ == put_registers(old(out)@, *regs),
{
    proof {
        reveal(put_registers);
    }
    out.push('A');
    out.push(':');
    write_hex2(out, regs.accumulator);
    out.push(' ');
    out.push('X');
    out.push(':');
    write_hex2(out, regs.x_reg);
    out.push(' ');
    out.push('Y');
    out.push(':');
    write_hex2(out, regs.y_reg);
    out.push(' ');
    out.push('P');
    out.push(':');
    write_hex2(out, regs.status_register);
    out.push(' ');
    out.push('S');
    out.push('P');
    out.push(':');
    write_hex2(out, regs.stack_ptr);
}

/// Looks at the byte at `addr` without changing anything.
fn look_at(bus: &mut Bus, addr: u16, fault: Option<NesError>) -> (r: (u8, Option<NesError>))
    requires
        old(bus).wf(),
    ensures
        final(bus)@ == old(bus)@,
        r == look(old(bus)@, addr as int, fault),
{
    proof {
        reveal(look);
    }
    match bus.cpu_read_byte_no_modify(addr as usize) {
        Ok(b) => (b, fault),
        Err(e) => (
            0,
            match fault {
                Some(first) => Some(first),
                None => Some(e),
            },
        ),
    }
}

/// Looks at the instruction at the address `pc`.
fn fetch_at(bus: &mut Bus, pc: u16) -> (r: (Fetched, Option<NesError>))
    requires
        old(bus).wf(),
    ensures
        final(bus)@ == old(bus)@,
        r == fetched_at(old(bus)@, pc),
{
    proof {
        reveal(fetched_at);
    }
    let (code, f0) = look_at(bus, pc, None);
    let entry = match f0 {
        None => decode(code),
        Some(_) => None,
    };
    match entry {
        None => (
            Fetched { code, lo: 0, hi: 0, mnemonic: Mnemonic::NOP, mode: AddressMode::IMPLIED },
            match f0 {
                Some(e) => Some(e),
                None => Some(NesError::Decode),
            },
        ),
        Some((mnemonic, mode, _)) => {
            let len = operand_len(mode);
            let (lo, f1) = if len >= 2 {
                look_at(bus, offset16(pc, 1), f0)
            } else {
                (0, f0)
            };
            let (hi, f2) = if len >= 3 {
                look_at(bus, offset16(pc, 2), f1)
            } else {
                (0, f1)
            };
            (Fetched { code, lo, hi, mnemonic, mode }, f2)
        },
    }
}

/// Appends the bytes of the instruction and its mnemonic.
fn write_bytes(out: &mut Vec<char>, f: &Fetched)
    ensures
        final(out)@ == put_bytes(old(out)@, *f),
{
    proof {
        reveal(put_bytes);
    }
    let len = operand_len(f.mode);
    write_hex2(out, f.code);
    if len == 1 {
        write_spaces(out, 8);
    } else if len == 2 {
        out.push(' ');
        write_hex2(out, f.lo);
        write_spaces(out, 5);
    } else {
        out.push(' ');
        write_hex2(out, f.lo);
        out.push(' ');
        write_hex2(out, f.hi);
        write_spaces(out, 2);
    }
    write_mnemonic(out, f.mnemonic);
}

/// Appends an operand that goes through a pointer in memory.
fn write_pointer_operand(
    out: &mut Vec<char>,
    f: &Fetched,
    regs: &CPURegisters,
    bus: &mut Bus,
    fault: Option<NesError>,
) -> (r: Option<NesError>)
    requires
        old(bus).wf(),
    ensures
        final(bus)@ == old(bus)@,
        (final(out)@, r) == put_pointer_operand(old(out)@, *f, *regs, old(bus)@, fault),
{
    proof {
        reveal(put_pointer_operand);
    }
    match f.mode {
        AddressMode::INDIRECTX => {
            let ptr = offset8(f.lo, regs.x_reg);
            let (l, f1) = look_at(bus, ptr as u16, fault);
            let (h, f2) = look_at(bus, offset8(ptr, 1) as u16, f1);
            let addr = make_word(l, h);
            let (v, f3) = look_at(bus, addr, f2);
            out.push('(');
            out.push('$');
            write_hex2(out, f.lo);
            out.push(',');
            out.push('X');
            out.push(')');
            write_at(out);
            write_hex2(out, ptr);
            write_equals(out);
            write_hex4(out, addr);
            write_equals(out);
            write_hex2(out, v);
            f3
        },
        AddressMode::INDIRECTY => {
            let (l, f1) = look_at(bus, f.lo as u16, fault);
            let (h, f2) = look_at(bus, offset8(f.lo, 1) as u16, f1);
            let base = make_word(l, h);
            let addr = offset16(base, regs.y_reg as u16);
            let (v, f3) = look_at(bus, addr, f2);
            out.push('(');
            out.push('$');
            write_hex2(out, f.lo);
            out.push(')');
            out.push(',');
            out.push('Y');
            write_equals(out);
            write_hex4(out, base);
            write_at(out);
            write_hex4(out, addr);
            write_equals(out);
            write_hex2(out, v);
            f3
        },
        _ => {
            let abs = make_word(f.lo, f.hi);
            let (l, f1) = look_at(bus, abs, fault);
            let (h, f2) = look_at(bus, indirect_high_addr(abs), f1);
            out.push('(');
            out.push('$');
            write_hex4(out, abs);
            out.push(')');
            write_equals(out);
            write_hex4(out, make_word(l, h));
            f2
        },
    }
}

/// Appends an operand in the zero page.
fn write_zero_page_operand(
    out: &mut Vec<char>,
    f: &Fetched,
    regs: &CPURegisters,
    bus: &mut Bus,
    fault: Option<NesError>,
) -> (r: Option<NesError>)
    requires
        old(bus).wf(),
    ensures
        final(bus)@ == old(bus)@,
        (final(out)@, r) == put_zero_page_operand(old(out)@, *f, *regs, old(bus)@, fault),
{
    proof {
        reveal(put_zero_page_operand);
    }
    match f.mode {
        AddressMode::ZEROPAGE => {
            let (v, f1) = look_at(bus, f.lo as u16, fault);
            out.push('$');
            write_hex2(out, f.lo);
            write_equals(out);
            write_hex2(out, v);
            f1
        },
        _ => {
            let x = match f.mode {
                AddressMode::ZEROPAGEX => true,
                _ => false,
            };
            let addr = offset8(f.lo, if x { regs.x_reg } else { regs.y_reg });
            let (v, f1) = look_at(bus, addr as u16, fault);
            out.push('$');
            write_hex2(out, f.lo);
            out.push(',');
            out.push(if x { 'X' } else { 'Y' });
            write_at(out);
            write_hex2(out, addr);
            write_equals(out);
            write_hex2(out, v);
            f1
        },
    }
}

/// Appends an absolute operand.
fn write_absolute_operand(
    out: &mut Vec<char>,
    f: &Fetched,
    regs: &CPURegisters,
    bus: &mut Bus,
    fault: Option<NesError>,
) -> (r: Option<NesError>)
    requires
        old(bus).wf(),
    ensures
        final(bus)@ == old(bus)@,
        (final(out)@, r) == put_absolute_operand(old(out)@, *f, *regs, old(bus)@, fault),
{
    proof {
        reveal(put_absolute_operand);
    }
    let abs = make_word(f.lo, f.hi);
    match f.mode {
        AddressMode::ABSOLUTE(reads) => {
            out.push('$');
            write_hex4(out, abs);
            if reads {
                let (v, f1) = look_at(bus, abs, fault);
                write_equals(out);
                write_hex2(out, v);
                f1
            } else {
                fault
            }
        },
        _ => {
            let x = match f.mode {
                AddressMode::ABSOLUTEX => true,
                _ => false,
            };
            let addr = offset16(abs, if x { regs.x_reg as u16 } else { regs.y_reg as u16 });
            let (v, f1) = look_at(bus, addr, fault);
            out.push('$');
            write_hex4(out, abs);
            out.push(',');
            out.push(if x { 'X' } else { 'Y' });
            write_at(out);
            write_hex4(out, addr);
            write_equals(out);
            write_hex2(out, v);
            f1
        },
    }
}

/// Appends the operand of the instruction.
fn write_operand(
    out: &mut Vec<char>,
    f: &Fetched,
    regs: &CPURegisters,
    next: u16,
    bus: &mut Bus,
    fault: Option<NesError>,
) -> (r: Option<NesError>)
    requires
        old(bus).wf(),
    ensures
        final(bus)@ == old(bus)@,
        (final(out)@, r) == put_operand(old(out)@, *f, *regs, next, old(bus)@, fault),
{
    proof {
        reveal(put_operand);
    }
    match f.mode {
        AddressMode::IMPLIED => fault,
        AddressMode::ACCUMULATOR => {
            out.push('A');
            out.push(' ');
            fault
        },
        AddressMode::IMMEDIATE => {
            out.push('#');
            out.push('$');
            write_hex2(out, f.lo);
            fault
        },
        AddressMode::RELATIVE => {
            let high: u16 = if f.lo >= 128 { 0xFF00 } else { 0 };
            out.push('$');
            write_hex_min2(out, offset16(offset16(next, f.lo as u16), high));
            fault
        },
        AddressMode::ZEROPAGE | AddressMode::ZEROPAGEX | AddressMode::ZEROPAGEY => {
            write_zero_page_operand(out, f, regs, bus, fault)
        },
        AddressMode::INDIRECTX | AddressMode::INDIRECTY | AddressMode::INDIRECT => {
            write_pointer_operand(out, f, regs, bus, fault)
        },
        _ => write_absolute_operand(out, f, regs, bus, fault),
    }
}

/// Writes the line of the trace for the instruction at the program
/// counter of `regs`, after `cycles` cycles. Memory is looked at and not
/// changed. Fails where the instruction or its operand cannot be read, or
/// the byte at the program counter is no instruction.
pub fn write_opcode(regs: &CPURegisters, cycles: u64, bus: &mut Bus) -> (r: Result<
    Vec<char>,
    NesError,
>)
    requires
        old(bus).wf(),
    ensures
        final(bus)@ == old(bus)@,
        match r {
            Ok(line) => trace_line(*regs, cycles, old(bus)@) == Ok::<Seq<char>, NesError>(line@),
            Err(e) => trace_line(*regs, cycles, old(bus)@) == Err::<Seq<char>, NesError>(e),
        },
{
    let pc = regs.program_counter;
    let (f, f0) = fetch_at(bus, pc);
    let mut out: Vec<char> = Vec::new();
    assert(out@ =~= Seq::<char>::empty());
    write_hex4(&mut out, pc);
    out.push(' ');
    out.push(' ');
    write_bytes(&mut out, &f);
    let len = operand_len(f.mode);
    let f1 = write_operand(&mut out, &f, regs, offset16(pc, len as u16), bus, f0);
    match f1 {
        Some(e) => Err(e),
        None => {
            let width = out.len();
            let fill: usize = if width >= INSTRUCTION_WIDTH {
                0
            } else {
                INSTRUCTION_WIDTH - width
            };
            write_spaces(&mut out, fill);
            write_spaces(&mut out, 5);
            write_registers(&mut out, regs);
            out.push(' ');
            out.push('C');
            out.push('Y');
            out.push('C');
            out.push(':');
            write_decimal(&mut out, cycles);
            Ok(out)
        },
    }
}

} // verus!
