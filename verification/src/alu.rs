//! The arithmetic and logic of the CPU: what each instruction makes of its
//! operand byte and the registers, apart from any access to memory.

use vstd::prelude::*;
use crate::instruction::Mnemonic;
use crate::bits::{
    bit16, bit8, field_is_set, get_bit16, get_bit8, lemma_bit_written, lemma_field_is_bit,
    lemma_field_write_is_bit, modify_field, set_bit8, with_bit8,
};

verus! {

/// The position of the carry flag in the status register.
pub const CARRY: u8 = 0;

/// The position of the zero flag.
pub const ZERO: u8 = 1;

/// The position of the interrupt-disable flag.
pub const INT_DISABLE: u8 = 2;

/// The position of the decimal flag, which can be set and read but does
/// nothing.
pub const DECIMAL: u8 = 3;

/// The position of the break flag, which exists only in status bytes that
/// were pushed on the stack.
pub const BFLAG: u8 = 4;

/// The position of the unused flag, which always reads as 1.
pub const UNUSED: u8 = 5;

/// The position of the overflow flag.
pub const OVERFLOW: u8 = 6;

/// The position of the negative flag.
pub const NEGATIVE: u8 = 7;

/// The registers of the CPU.
#[derive(Clone, Copy, Debug, PartialEq, Eq, Structural)]
pub struct CPURegisters {
    pub accumulator: u8,
    pub x_reg: u8,
    pub y_reg: u8,
    /// The stack pointer; the stack is the page at `0x0100`.
    pub stack_ptr: u8,
    pub program_counter: u16,
    pub status_register: u8,
}

impl CPURegisters {
    /// The registers at power-up, before the reset sequence ran. The reset
    /// sequence moves the stack pointer down by three, to `0xFD`.
    pub open spec fn power_up() -> CPURegisters {
        CPURegisters {
            accumulator: 0,
            x_reg: 0,
            y_reg: 0,
            stack_ptr: 0x00,
            program_counter: 0,
            status_register: 0x24,
        }
    }

    pub fn new() -> (r: Self)
        ensures
            r == CPURegisters::power_up(),
    {
        Self {
            accumulator: 0,
            x_reg: 0,
            y_reg: 0,
            stack_ptr: 0x00,
            program_counter: 0x0,
            status_register: 0x24,
        }
    }
}

/// The status `p` with the zero and negative flags taken from `v`.
pub open spec fn with_nz(p: u8, v: u8) -> u8 {
    with_bit8(with_bit8(p, ZERO, v == 0), NEGATIVE, bit8(v, 7))
}

/// The status that a status byte from the stack becomes: the break flag
/// stays as the register has it, and the unused flag is set.
pub open spec fn status_from_stack(p: u8, val: u8) -> u8 {
    with_bit8(with_bit8(val, BFLAG, bit8(p, BFLAG)), UNUSED, true)
}

/// The sum of the accumulator, the operand and the carry, in nine bits.
pub open spec fn adc_sum(a: u8, m: u8, carry: bool) -> u16 {
    (a + m + if carry { 1int } else { 0int }) as u16
}

/// The registers after an addition with carry of `m`.
pub open spec fn adc_model(regs: CPURegisters, m: u8) -> CPURegisters {
    let a = regs.accumulator;
    let sum = adc_sum(a, m, bit8(regs.status_register, CARRY));
    let result = (sum & 0xFF) as u8;
    let p0 = with_bit8(regs.status_register, CARRY, bit16(sum, 8));
    let p1 = with_bit8(p0, ZERO, result == 0);
    let p2 = with_bit8(p1, OVERFLOW, bit16((sum ^ (a as u16)) & (sum ^ (m as u16)), 7));
    let p3 = with_bit8(p2, NEGATIVE, bit8(result, 7));
    CPURegisters { accumulator: result, status_register: p3, ..regs }
}

/// The registers after a subtraction with borrow of `m`: an addition of
/// the complement of `m`.
pub open spec fn sbc_model(regs: CPURegisters, m: u8) -> CPURegisters {
    adc_model(regs, m ^ 0xFF)
}

/// The status after `reg` was compared with `m`: carry where `reg` is not
/// below `m`, zero where they are equal, negative from the difference.
pub open spec fn compare_model(p: u8, reg: u8, m: u8) -> u8 {
    let p0 = with_bit8(p, CARRY, reg >= m);
    let p1 = with_bit8(p0, ZERO, reg == m);
    with_bit8(p1, NEGATIVE, bit8(((reg - m) % 256) as u8, 7))
}

/// The status after a bit test of `m` against the accumulator `a`.
pub open spec fn bit_model(p: u8, a: u8, m: u8) -> u8 {
    let p0 = with_bit8(p, ZERO, a & m == 0);
    let p1 = with_bit8(p0, OVERFLOW, bit8(m, 6));
    with_bit8(p1, NEGATIVE, bit8(m, 7))
}

/// The status and the byte after a shift left of `v`.
pub open spec fn asl_model(p: u8, v: u8) -> (u8, u8) {
    let out = v << 1u8;
    (with_nz(with_bit8(p, CARRY, bit8(v, 7)), out), out)
}

/// The status and the byte after a shift right of `v`; the negative flag
/// is cleared.
pub open spec fn lsr_model(p: u8, v: u8) -> (u8, u8) {
    let out = v >> 1u8;
    let p0 = with_bit8(p, CARRY, bit8(v, 0));
    let p1 = with_bit8(p0, ZERO, out == 0);
    (with_bit8(p1, NEGATIVE, false), out)
}

/// The status and the byte after a rotation left of `v` through the carry.
pub open spec fn rol_model(p: u8, v: u8) -> (u8, u8) {
    let out = with_bit8(v << 1u8, 0, bit8(p, CARRY));
    (with_nz(with_bit8(p, CARRY, bit8(v, 7)), out), out)
}

/// The status and the byte after a rotation right of `v` through the
/// carry.
pub open spec fn ror_model(p: u8, v: u8) -> (u8, u8) {
    let out = with_bit8(v >> 1u8, 7, bit8(p, CARRY));
    (with_nz(with_bit8(p, CARRY, bit8(v, 0)), out), out)
}

/// The byte after `v`, wrapping.
pub open spec fn inc8(v: u8) -> u8 {
    ((v + 1) % 256) as u8
}

/// The byte before `v`, wrapping.
pub open spec fn dec8(v: u8) -> u8 {
    ((v + 255) % 256) as u8
}

/// Whether a move from `old_pc` to `new_pc` leaves the page.
pub open spec fn crosses_page(old_pc: u16, new_pc: u16) -> bool {
    new_pc / 256 != old_pc / 256
}

/// The registers and the cycles after a branch to `target` that is taken
/// where `taken` holds: a taken branch costs one cycle more, and one more
/// again where it leaves the page of the next instruction.
pub open spec fn branch_model(regs: CPURegisters, target: u16, taken: bool, base: u8) -> (
    CPURegisters,
    u8,
) {
    if taken {
        (
            CPURegisters { program_counter: target, ..regs },
            (base + 1 + if crosses_page(target, regs.program_counter) {
                1int
            } else {
                0int
            }) as u8,
        )
    } else {
        (regs, base)
    }
}

/// Whether the flag at `flag` is set in `p`.
pub fn flag_is_set(p: u8, flag: u8) -> (r: bool)
    requires
        flag < 8,
    ensures
        r == bit8(p, flag),
{
    proof {
        lemma_field_is_bit(p, flag);
    }
    field_is_set(p, 1, flag)
}

/// `p` with the flag at `flag` set.
pub fn set_flag(p: u8, flag: u8) -> (r: u8)
    requires
        flag < 8,
    ensures
        r == with_bit8(p, flag, true),
{
    proof {
        lemma_field_write_is_bit(p, flag);
    }
    modify_field(p, 1, flag, 1)
}

/// `p` with the flag at `flag` cleared.
pub fn clear_flag(p: u8, flag: u8) -> (r: u8)
    requires
        flag < 8,
    ensures
        r == with_bit8(p, flag, false),
{
    proof {
        lemma_field_write_is_bit(p, flag);
    }
    modify_field(p, 1, flag, 0)
}

/// `p` with the flag at `bit_pos` set where `predicate` holds, and
/// cleared where it does not.
pub fn set_status_bit_if(p: u8, bit_pos: u8, predicate: bool) -> (r: u8)
    requires
        bit_pos < 8,
    ensures
        r == with_bit8(p, bit_pos, predicate),
{
    let mut new: u8 = p;
    set_bit8(&mut new, bit_pos, predicate);
    new
}

/// `p` with the zero and negative flags taken from `v`.
pub fn set_nz(p: u8, v: u8) -> (r: u8)
    ensures
        r == with_nz(p, v),
{
    let p0 = set_status_bit_if(p, ZERO, v == 0);
    set_status_bit_if(p0, NEGATIVE, get_bit8(v, 7))
}

/// Takes a status byte from the stack into the register: the break flag of
/// the byte is ignored and the unused flag is set.
pub fn set_status_register(p: u8, val: u8) -> (r: u8)
    ensures
        r == status_from_stack(p, val),
{
    let mut new: u8 = val;
    set_bit8(&mut new, BFLAG, flag_is_set(p, BFLAG));
    set_bit8(&mut new, UNUSED, true);
    new
}

/// Adds `m` and the carry to the accumulator.
pub fn adc(regs: CPURegisters, m: u8) -> (r: CPURegisters)
    ensures
        r == adc_model(regs, m),
{
    let old_accumulator = regs.accumulator;
    let carry: u16 = if flag_is_set(regs.status_register, CARRY) { 1 } else { 0 };
    let val16bit: u16 = old_accumulator as u16 + m as u16 + carry;
    let result: u8 = (val16bit & 0xFF) as u8;
    let mut p = set_status_bit_if(regs.status_register, CARRY, get_bit16(val16bit, 8));
    p = set_status_bit_if(p, ZERO, result == 0);
    p = set_status_bit_if(
        p,
        OVERFLOW,
        get_bit16((val16bit ^ old_accumulator as u16) & (val16bit ^ m as u16), 7),
    );
    p = set_status_bit_if(p, NEGATIVE, get_bit8(result, 7));
    CPURegisters { accumulator: result, status_register: p, ..regs }
}

/// Subtracts `m` and the borrow from the accumulator.
pub fn sbc(regs: CPURegisters, m: u8) -> (r: CPURegisters)
    ensures
        r == sbc_model(regs, m),
{
    adc(regs, m ^ 0xFF)
}

/// Compares `reg_val` with `m`.
pub fn compare_reg(p: u8, reg_val: u8, m: u8) -> (r: u8)
    ensures
        r == compare_model(p, reg_val, m),
{
    let p0 = set_status_bit_if(p, CARRY, reg_val >= m);
    let p1 = set_status_bit_if(p0, ZERO, reg_val == m);
    let diff: u8 = reg_val.wrapping_sub(m);
    assert(diff == ((reg_val - m) % 256) as u8) by {
        if reg_val >= m {
            assert(reg_val - m == (reg_val - m) % 256);
        } else {
            assert(reg_val - m + 256 == (reg_val - m) % 256);
        }
    }
    set_status_bit_if(p1, NEGATIVE, get_bit8(diff, 7))
}

/// Tests the bits of `m` against the accumulator `a`.
pub fn bit(p: u8, a: u8, m: u8) -> (r: u8)
    ensures
        r == bit_model(p, a, m),
{
    let p0 = set_status_bit_if(p, ZERO, a & m == 0);
    let p1 = set_status_bit_if(p0, OVERFLOW, get_bit8(m, 6));
    set_status_bit_if(p1, NEGATIVE, get_bit8(m, 7))
}

/// Shifts `v` left by one bit.
pub fn asl(p: u8, v: u8) -> (r: (u8, u8))
    ensures
        r == asl_model(p, v),
{
    let p0 = set_status_bit_if(p, CARRY, get_bit8(v, 7));
    let out: u8 = v << 1u8;
    (set_nz(p0, out), out)
}

/// Shifts `v` right by one bit.
pub fn lsr(p: u8, v: u8) -> (r: (u8, u8))
    ensures
        r == lsr_model(p, v),
{
    let p0 = set_status_bit_if(p, CARRY, get_bit8(v, 0));
    let out: u8 = v >> 1u8;
    let p1 = set_status_bit_if(p0, ZERO, out == 0);
    (clear_flag(p1, NEGATIVE), out)
}

/// Rotates `v` left through the carry.
pub fn rol(p: u8, v: u8) -> (r: (u8, u8))
    ensures
        r == rol_model(p, v),
{
    let new_carry = get_bit8(v, 7);
    let mut out: u8 = v << 1u8;
    set_bit8(&mut out, 0, flag_is_set(p, CARRY));
    let p0 = set_status_bit_if(p, CARRY, new_carry);
    (set_nz(p0, out), out)
}

/// Rotates `v` right through the carry.
pub fn ror(p: u8, v: u8) -> (r: (u8, u8))
    ensures
        r == ror_model(p, v),
{
    let new_carry = get_bit8(v, 0);
    let mut out: u8 = v >> 1u8;
    set_bit8(&mut out, 7, flag_is_set(p, CARRY));
    let p0 = set_status_bit_if(p, CARRY, new_carry);
    (set_nz(p0, out), out)
}

/// Whether a move from `old_pc` to `new_pc` leaves the page.
pub fn will_cross_boundary(old_pc: u16, new_pc: u16) -> (r: bool)
    ensures
        r == crosses_page(old_pc, new_pc),
{
    new_pc / 256 != old_pc / 256
}

/// Branches to `addr` where the flag at `flag` is `set`.
pub fn branchif(regs: CPURegisters, addr: u16, set: bool, cycle_count: u8, flag: u8) -> (r: (
    CPURegisters,
    u8,
))
    requires
        flag < 8,
        cycle_count <= 253,
    ensures
        r == branch_model(regs, addr, bit8(regs.status_register, flag) == set, cycle_count),
{
    let check = flag_is_set(regs.status_register, flag) == set;
    if check {
        let mut cycles: u8 = cycle_count + 1;
        if will_cross_boundary(addr, regs.program_counter) {
            cycles += 1;
        }
        (CPURegisters { program_counter: addr, ..regs }, cycles)
    } else {
        (regs, cycle_count)
    }
}

/// Whether the instruction reads its operand byte and changes registers
/// only.
pub open spec fn is_read_op(mn: Mnemonic) -> bool {
    matches!(
        mn,
        Mnemonic::LDA | Mnemonic::LDX | Mnemonic::LDY | Mnemonic::AND | Mnemonic::ORA
            | Mnemonic::EOR | Mnemonic::ADC | Mnemonic::SBC | Mnemonic::CPA | Mnemonic::CPX
            | Mnemonic::CPY | Mnemonic::BIT
    )
}

/// The registers after an instruction that reads the operand byte `m`.
pub open spec fn read_op_model(mn: Mnemonic, regs: CPURegisters, m: u8) -> CPURegisters {
    let p = regs.status_register;
    match mn {
        Mnemonic::LDA => CPURegisters { accumulator: m, status_register: with_nz(p, m), ..regs },
        Mnemonic::LDX => CPURegisters { x_reg: m, status_register: with_nz(p, m), ..regs },
        Mnemonic::LDY => CPURegisters { y_reg: m, status_register: with_nz(p, m), ..regs },
        Mnemonic::AND => CPURegisters {
            accumulator: regs.accumulator & m,
            status_register: with_nz(p, regs.accumulator & m),
            ..regs
        },
        Mnemonic::ORA => CPURegisters {
            accumulator: regs.accumulator | m,
            status_register: with_nz(p, regs.accumulator | m),
            ..regs
        },
        Mnemonic::EOR => CPURegisters {
            accumulator: regs.accumulator ^ m,
            status_register: with_nz(p, regs.accumulator ^ m),
            ..regs
        },
        Mnemonic::ADC => adc_model(regs, m),
        Mnemonic::SBC => sbc_model(regs, m),
        Mnemonic::CPA => CPURegisters {
            status_register: compare_model(p, regs.accumulator, m),
            ..regs
        },
        Mnemonic::CPX => CPURegisters { status_register: compare_model(p, regs.x_reg, m), ..regs },
        Mnemonic::CPY => CPURegisters { status_register: compare_model(p, regs.y_reg, m), ..regs },
        Mnemonic::BIT => CPURegisters {
            status_register: bit_model(p, regs.accumulator, m),
            ..regs
        },
        _ => regs,
    }
}

/// Whether the instruction reads a byte, changes it and writes it back.
pub open spec fn is_modify_op(mn: Mnemonic) -> bool {
    matches!(
        mn,
        Mnemonic::ASL | Mnemonic::LSR | Mnemonic::ROL | Mnemonic::ROR | Mnemonic::INC
            | Mnemonic::DEC
    )
}

/// The status and the byte after an instruction that changes the byte `v`.
pub open spec fn modify_op_model(mn: Mnemonic, p: u8, v: u8) -> (u8, u8) {
    match mn {
        Mnemonic::ASL => asl_model(p, v),
        Mnemonic::LSR => lsr_model(p, v),
        Mnemonic::ROL => rol_model(p, v),
        Mnemonic::ROR => ror_model(p, v),
        Mnemonic::INC => (with_nz(p, inc8(v)), inc8(v)),
        Mnemonic::DEC => (with_nz(p, dec8(v)), dec8(v)),
        _ => (p, v),
    }
}

/// Whether the instruction writes a register to memory.
pub open spec fn is_store_op(mn: Mnemonic) -> bool {
    matches!(mn, Mnemonic::STA | Mnemonic::STX | Mnemonic::STY)
}

/// The byte that a store writes.
pub open spec fn store_value(mn: Mnemonic, regs: CPURegisters) -> u8 {
    match mn {
        Mnemonic::STX => regs.x_reg,
        Mnemonic::STY => regs.y_reg,
        _ => regs.accumulator,
    }
}

/// Whether the instruction touches registers only.
pub open spec fn is_register_op(mn: Mnemonic) -> bool {
    matches!(
        mn,
        Mnemonic::CLC | Mnemonic::SEC | Mnemonic::CLI | Mnemonic::SEI | Mnemonic::CLD
            | Mnemonic::SED | Mnemonic::CLV | Mnemonic::NOP | Mnemonic::TAX | Mnemonic::TAY
            | Mnemonic::TXA | Mnemonic::TYA | Mnemonic::TSX | Mnemonic::TXS | Mnemonic::INX
            | Mnemonic::INY | Mnemonic::DEX | Mnemonic::DEY
    )
}

/// The registers after an instruction that touches registers only.
pub open spec fn register_op_model(mn: Mnemonic, regs: CPURegisters) -> CPURegisters {
    let p = regs.status_register;
    match mn {
        Mnemonic::CLC => CPURegisters { status_register: with_bit8(p, CARRY, false), ..regs },
        Mnemonic::SEC => CPURegisters { status_register: with_bit8(p, CARRY, true), ..regs },
        Mnemonic::CLI => CPURegisters { status_register: with_bit8(p, INT_DISABLE, false), ..regs },
        Mnemonic::SEI => CPURegisters { status_register: with_bit8(p, INT_DISABLE, true), ..regs },
        Mnemonic::CLD => CPURegisters { status_register: with_bit8(p, DECIMAL, false), ..regs },
        Mnemonic::SED => CPURegisters { status_register: with_bit8(p, DECIMAL, true), ..regs },
        Mnemonic::CLV => CPURegisters { status_register: with_bit8(p, OVERFLOW, false), ..regs },
        Mnemonic::TAX => CPURegisters {
            x_reg: regs.accumulator,
            status_register: with_nz(p, regs.accumulator),
            ..regs
        },
        Mnemonic::TAY => CPURegisters {
            y_reg: regs.accumulator,
            status_register: with_nz(p, regs.accumulator),
            ..regs
        },
        Mnemonic::TXA => CPURegisters {
            accumulator: regs.x_reg,
            status_register: with_nz(p, regs.x_reg),
            ..regs
        },
        Mnemonic::TYA => CPURegisters {
            accumulator: regs.y_reg,
            status_register: with_nz(p, regs.y_reg),
            ..regs
        },
        Mnemonic::TSX => CPURegisters {
            x_reg: regs.stack_ptr,
            status_register: with_nz(p, regs.stack_ptr),
            ..regs
        },
        Mnemonic::TXS => CPURegisters { stack_ptr: regs.x_reg, ..regs },
        Mnemonic::INX => CPURegisters {
            x_reg: inc8(regs.x_reg),
            status_register: with_nz(p, inc8(regs.x_reg)),
            ..regs
        },
        Mnemonic::INY => CPURegisters {
            y_reg: inc8(regs.y_reg),
            status_register: with_nz(p, inc8(regs.y_reg)),
            ..regs
        },
        Mnemonic::DEX => CPURegisters {
            x_reg: dec8(regs.x_reg),
            status_register: with_nz(p, dec8(regs.x_reg)),
            ..regs
        },
        Mnemonic::DEY => CPURegisters {
            y_reg: dec8(regs.y_reg),
            status_register: with_nz(p, dec8(regs.y_reg)),
            ..regs
        },
        _ => regs,
    }
}

/// Whether the instruction is a branch.
pub open spec fn is_branch_op(mn: Mnemonic) -> bool {
    matches!(
        mn,
        Mnemonic::BCC | Mnemonic::BCS | Mnemonic::BEQ | Mnemonic::BNE | Mnemonic::BVS
            | Mnemonic::BVC | Mnemonic::BPL | Mnemonic::BMI
    )
}

/// The flag that a branch tests, and the value on which it is taken.
pub open spec fn branch_test(mn: Mnemonic) -> (u8, bool) {
    match mn {
        Mnemonic::BCC => (CARRY, false),
        Mnemonic::BCS => (CARRY, true),
        Mnemonic::BEQ => (ZERO, true),
        Mnemonic::BNE => (ZERO, false),
        Mnemonic::BVS => (OVERFLOW, true),
        Mnemonic::BVC => (OVERFLOW, false),
        Mnemonic::BPL => (NEGATIVE, false),
        _ => (NEGATIVE, true),
    }
}

/// Whether a branch is taken under the status `p`.
pub open spec fn branch_taken(mn: Mnemonic, p: u8) -> bool {
    bit8(p, branch_test(mn).0) == branch_test(mn).1
}

/// The byte after `v`, wrapping.
pub fn inc(v: u8) -> (r: u8)
    ensures
        r == inc8(v),
{
    v.wrapping_add(1)
}

/// The byte before `v`, wrapping.
pub fn dec(v: u8) -> (r: u8)
    ensures
        r == dec8(v),
{
    let r = v.wrapping_sub(1);
    assert(r == dec8(v)) by {
        if v >= 1 {
            assert(v - 1 == (v + 255) % 256);
        }
    }
    r
}

/// Carries out an instruction that reads the operand byte `m`.
pub fn read_op(mn: Mnemonic, regs: CPURegisters, m: u8) -> (r: CPURegisters)
    ensures
        r == read_op_model(mn, regs, m),
{
    let p = regs.status_register;
    match mn {
        Mnemonic::LDA => CPURegisters { accumulator: m, status_register: set_nz(p, m), ..regs },
        Mnemonic::LDX => CPURegisters { x_reg: m, status_register: set_nz(p, m), ..regs },
        Mnemonic::LDY => CPURegisters { y_reg: m, status_register: set_nz(p, m), ..regs },
        Mnemonic::AND => {
            let a: u8 = regs.accumulator & m;
            CPURegisters { accumulator: a, status_register: set_nz(p, a), ..regs }
        },
        Mnemonic::ORA => {
            let a: u8 = regs.accumulator | m;
            CPURegisters { accumulator: a, status_register: set_nz(p, a), ..regs }
        },
        Mnemonic::EOR => {
            let a: u8 = regs.accumulator ^ m;
            CPURegisters { accumulator: a, status_register: set_nz(p, a), ..regs }
        },
        Mnemonic::ADC => adc(regs, m),
        Mnemonic::SBC => sbc(regs, m),
        Mnemonic::CPA => CPURegisters {
            status_register: compare_reg(p, regs.accumulator, m),
            ..regs
        },
        Mnemonic::CPX => CPURegisters { status_register: compare_reg(p, regs.x_reg, m), ..regs },
        Mnemonic::CPY => CPURegisters { status_register: compare_reg(p, regs.y_reg, m), ..regs },
        Mnemonic::BIT => CPURegisters { status_register: bit(p, regs.accumulator, m), ..regs },
        _ => regs,
    }
}

/// Carries out an instruction that changes the byte `v`.
pub fn modify_op(mn: Mnemonic, p: u8, v: u8) -> (r: (u8, u8))
    ensures
        r == modify_op_model(mn, p, v),
{
    match mn {
        Mnemonic::ASL => asl(p, v),
        Mnemonic::LSR => lsr(p, v),
        Mnemonic::ROL => rol(p, v),
        Mnemonic::ROR => ror(p, v),
        Mnemonic::INC => {
            let out = inc(v);
            (set_nz(p, out), out)
        },
        Mnemonic::DEC => {
            let out = dec(v);
            (set_nz(p, out), out)
        },
        _ => (p, v),
    }
}

/// Carries out an instruction that touches registers only.
pub fn register_op(mn: Mnemonic, regs: CPURegisters) -> (r: CPURegisters)
    ensures
        r == register_op_model(mn, regs),
{
    let p = regs.status_register;
    match mn {
        Mnemonic::CLC => CPURegisters { status_register: clear_flag(p, CARRY), ..regs },
        Mnemonic::SEC => CPURegisters { status_register: set_flag(p, CARRY), ..regs },
        Mnemonic::CLI => CPURegisters { status_register: clear_flag(p, INT_DISABLE), ..regs },
        Mnemonic::SEI => CPURegisters { status_register: set_flag(p, INT_DISABLE), ..regs },
        Mnemonic::CLD => CPURegisters { status_register: clear_flag(p, DECIMAL), ..regs },
        Mnemonic::SED => CPURegisters { status_register: set_flag(p, DECIMAL), ..regs },
        Mnemonic::CLV => CPURegisters { status_register: clear_flag(p, OVERFLOW), ..regs },
        Mnemonic::TAX => CPURegisters {
            x_reg: regs.accumulator,
            status_register: set_nz(p, regs.accumulator),
            ..regs
        },
        Mnemonic::TAY => CPURegisters {
            y_reg: regs.accumulator,
            status_register: set_nz(p, regs.accumulator),
            ..regs
        },
        Mnemonic::TXA => CPURegisters {
            accumulator: regs.x_reg,
            status_register: set_nz(p, regs.x_reg),
            ..regs
        },
        Mnemonic::TYA => CPURegisters {
            accumulator: regs.y_reg,
            status_register: set_nz(p, regs.y_reg),
            ..regs
        },
        Mnemonic::TSX => CPURegisters {
            x_reg: regs.stack_ptr,
            status_register: set_nz(p, regs.stack_ptr),
            ..regs
        },
        Mnemonic::TXS => CPURegisters { stack_ptr: regs.x_reg, ..regs },
        Mnemonic::INX => {
            let v = inc(regs.x_reg);
            CPURegisters { x_reg: v, status_register: set_nz(p, v), ..regs }
        },
        Mnemonic::INY => {
            let v = inc(regs.y_reg);
            CPURegisters { y_reg: v, status_register: set_nz(p, v), ..regs }
        },
        Mnemonic::DEX => {
            let v = dec(regs.x_reg);
            CPURegisters { x_reg: v, status_register: set_nz(p, v), ..regs }
        },
        Mnemonic::DEY => {
            let v = dec(regs.y_reg);
            CPURegisters { y_reg: v, status_register: set_nz(p, v), ..regs }
        },
        _ => regs,
    }
}

/// The flag that a branch tests, and the value on which it is taken.
pub fn branch_flag(mn: Mnemonic) -> (r: (u8, bool))
    ensures
        r == branch_test(mn),
        r.0 < 8,
{
    match mn {
        Mnemonic::BCC => (CARRY, false),
        Mnemonic::BCS => (CARRY, true),
        Mnemonic::BEQ => (ZERO, true),
        Mnemonic::BNE => (ZERO, false),
        Mnemonic::BVS => (OVERFLOW, true),
        Mnemonic::BVC => (OVERFLOW, false),
        Mnemonic::BPL => (NEGATIVE, false),
        _ => (NEGATIVE, true),
    }
}

/// The number that the byte `v` stands for as a signed byte.
pub open spec fn signed(v: u8) -> int {
    if v >= 128 {
        v - 256
    } else {
        v as int
    }
}

/// Whether `n` fits a signed byte.
pub open spec fn fits_signed(n: int) -> bool {
    -128 <= n <= 127
}

/// After an addition with carry the overflow flag says whether the signed
/// sum of the accumulator, the operand and the carry fits a signed byte,
/// and the carry flag whether their unsigned sum fits a byte.
pub proof fn lemma_adc_overflow(regs: CPURegisters, m: u8)
    ensures
        bit8(adc_model(regs, m).status_register, OVERFLOW) == !fits_signed(
            signed(regs.accumulator) + signed(m) + if bit8(regs.status_register, CARRY) {
                1int
            } else {
                0int
            },
        ),
        bit8(adc_model(regs, m).status_register, CARRY) == (regs.accumulator + m + if bit8(
            regs.status_register,
            CARRY,
        ) {
            1int
        } else {
            0int
        } > 255),
        adc_model(regs, m).accumulator == (regs.accumulator + m + if bit8(
            regs.status_register,
            CARRY,
        ) {
            1int
        } else {
            0int
        }) % 256,
{
    let a = regs.accumulator;
    let carry = bit8(regs.status_register, CARRY);
    let sum = adc_sum(a, m, carry);
    let a16 = a as u16;
    let m16 = m as u16;
    let result = (sum & 0xFF) as u8;
    assert(sum < 512);
    assert((((sum ^ a16) & (sum ^ m16)) >> 7u16) & 1u16 == 1u16 <==> ((a16 < 128 && m16 < 128 && (sum
        & 0xFF) >= 128) || (a16 >= 128 && m16 >= 128 && (sum & 0xFF) < 128))) by (bit_vector)
        requires
            a16 < 256,
            m16 < 256,
            sum < 512,
            sum >= a16,
            sum >= m16,
            sum - a16 - m16 <= 1,
    ;
    assert((sum & 0xFF) == sum % 256 && ((sum >> 8u16) & 1u16 == 1u16) == (sum > 255) && (sum
        & 0xFF) < 256) by (bit_vector)
        requires
            sum < 512,
    ;
    let p0 = with_bit8(regs.status_register, CARRY, bit16(sum, 8));
    let p1 = with_bit8(p0, ZERO, result == 0);
    let p2 = with_bit8(p1, OVERFLOW, bit16((sum ^ a16) & (sum ^ m16), 7));
    let p3 = with_bit8(p2, NEGATIVE, bit8(result, 7));
    lemma_bit_written(regs.status_register, CARRY, bit16(sum, 8), CARRY);
    lemma_bit_written(p0, ZERO, result == 0, CARRY);
    lemma_bit_written(p1, OVERFLOW, bit16((sum ^ a16) & (sum ^ m16), 7), CARRY);
    lemma_bit_written(p2, NEGATIVE, bit8(result, 7), CARRY);
    lemma_bit_written(p2, NEGATIVE, bit8(result, 7), OVERFLOW);
    lemma_bit_written(p1, OVERFLOW, bit16((sum ^ a16) & (sum ^ m16), 7), OVERFLOW);
}

/// After a subtraction with borrow the overflow flag says whether the
/// signed difference of the accumulator and the operand, less the borrow,
/// fits a signed byte. The borrow is the complement of the carry.
pub proof fn lemma_sbc_overflow(regs: CPURegisters, m: u8)
    ensures
        bit8(sbc_model(regs, m).status_register, OVERFLOW) == !fits_signed(
            signed(regs.accumulator) - signed(m) - if bit8(regs.status_register, CARRY) {
                0int
            } else {
                1int
            },
        ),
{
    assert((m ^ 0xFF) == 255 - m) by (bit_vector);
    lemma_adc_overflow(regs, m ^ 0xFF);
}

/// A status byte that comes from the stack never changes the break flag
/// of the register, always sets the unused flag, and brings every other
/// flag with it.
pub proof fn lemma_status_from_stack(p: u8, val: u8, other: u8)
    requires
        other < 8,
        other != BFLAG,
        other != UNUSED,
    ensures
        bit8(status_from_stack(p, val), BFLAG) == bit8(p, BFLAG),
        bit8(status_from_stack(p, val), UNUSED),
        bit8(status_from_stack(p, val), other) == bit8(val, other),
{
    let first = with_bit8(val, BFLAG, bit8(p, BFLAG));
    lemma_bit_written(val, BFLAG, bit8(p, BFLAG), other);
    lemma_bit_written(first, UNUSED, true, BFLAG);
    lemma_bit_written(first, UNUSED, true, other);
}

/// A branch that is taken costs one cycle more than its base, and one more
/// again where the target lies in another page than the instruction that
/// follows the branch; a branch that is not taken costs its base and
/// leaves the registers as they are.
pub proof fn lemma_branch_cycles(regs: CPURegisters, target: u16, taken: bool, base: u8)
    requires
        base <= 253,
    ensures
        taken ==> branch_model(regs, target, taken, base).1 == base + 1 + if crosses_page(
            target,
            regs.program_counter,
        ) {
            1int
        } else {
            0int
        },
        taken ==> branch_model(regs, target, taken, base).0.program_counter == target,
        !taken ==> branch_model(regs, target, taken, base) == (regs, base),
{
}

/// Writing a flag other than the unused one leaves the unused flag set.
pub proof fn lemma_flag_keeps_unused(p: u8, i: u8, b: bool)
    requires
        i < 8,
        i != UNUSED,
        bit8(p, UNUSED),
    ensures
        bit8(with_bit8(p, i, b), UNUSED),
{
    lemma_bit_written(p, i, b, UNUSED);
}

/// No instruction that works on its operand byte, on a byte of memory or
/// on the registers alone clears the unused flag.
pub proof fn lemma_alu_keeps_unused(mn: Mnemonic, regs: CPURegisters, m: u8)
    requires
        bit8(regs.status_register, UNUSED),
    ensures
        bit8(read_op_model(mn, regs, m).status_register, UNUSED),
        bit8(modify_op_model(mn, regs.status_register, m).0, UNUSED),
        bit8(register_op_model(mn, regs).status_register, UNUSED),
{
    let p = regs.status_register;
    assert forall|q: u8, v: u8| bit8(q, UNUSED) implies #[trigger] bit8(with_nz(q, v), UNUSED) by {
        lemma_flag_keeps_unused(q, ZERO, v == 0);
        lemma_flag_keeps_unused(with_bit8(q, ZERO, v == 0), NEGATIVE, bit8(v, 7));
    }
    assert forall|q: u8, i: u8, b: bool| i < 8 && i != UNUSED && bit8(q, UNUSED) implies bit8(
        #[trigger] with_bit8(q, i, b),
        UNUSED,
    ) by {
        lemma_flag_keeps_unused(q, i, b);
    }
}

} // verus!
