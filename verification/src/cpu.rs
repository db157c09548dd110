//! The CPU: a fetch, decode and execute loop over the official instruction
//! set, stepped one whole instruction at a time.

use vstd::prelude::*;
use crate::alu::{
    branch_flag, branchif, dec, inc, modify_op, read_op, register_op, set_flag, set_nz,
    set_status_register, will_cross_boundary, CPURegisters, BFLAG, INT_DISABLE,
};
use crate::bus::Bus;
use crate::bus_model::word;
use crate::cpu_model::{
    add16, add8, adjusted_cycles, direct_operand, indirect_high, outcome, Machine, Operand,
};
use crate::error::NesError;
use crate::instruction::{decode, operand_len, AddressMode, Mnemonic, Opcode};

verus! {

pub struct CPU {
    registers: CPURegisters,
    /// The registers as they were before the step that ran last.
    old_register_state: CPURegisters,
    /// The cycles since power-up, wrapping.
    total_cycles: u64,
}

/// The address `d` after `a`, wrapping.
pub(crate) fn offset16(a: u16, d: u16) -> (r: u16)
    ensures
        r == add16(a, d as int),
{
    a.wrapping_add(d)
}

/// The zero-page address `d` after `a`, wrapping inside the zero page.
pub(crate) fn offset8(a: u8, d: u8) -> (r: u8)
    ensures
        r == add8(a, d as int),
{
    a.wrapping_add(d)
}

/// The address of the high byte of an indirect jump through `base`.
pub(crate) fn indirect_high_addr(base: u16) -> (r: u16)
    ensures
        r == indirect_high(base),
{
    (base / 256) * 256 + (base % 256 + 1) % 256
}

/// The word that a low and a high byte make.
pub(crate) fn make_word(lo: u8, hi: u8) -> (r: u16)
    ensures
        r == word(lo, hi),
{
    lo as u16 + 256 * (hi as u16)
}

/// The high byte of a word.
fn high_byte(w: u16) -> (r: u8)
    ensures
        r == (w / 256) as u8,
{
    (w / 256) as u8
}

/// The low byte of a word.
fn low_byte(w: u16) -> (r: u8)
    ensures
        r == (w % 256) as u8,
{
    (w % 256) as u8
}

impl CPU {
    pub const STACK_PG_START: u16 = 0x100;

    /// The registers.
    pub closed spec fn regs(&self) -> CPURegisters {
        self.registers
    }

    /// The registers before the step that ran last.
    pub closed spec fn previous_regs(&self) -> CPURegisters {
        self.old_register_state
    }

    /// The cycles since power-up, wrapping.
    pub closed spec fn cycles(&self) -> u64 {
        self.total_cycles
    }

    /// The machine that the CPU and the bus `bus` make at the start of a
    /// step.
    pub open spec fn machine(&self, bus: &Bus) -> Machine {
        Machine::start(self.regs(), bus@)
    }

    /// The total `total` after `n` more cycles, wrapping.
    pub open spec fn cycles_after(total: u64, n: int) -> u64 {
        ((total + n) % 0x1_0000_0000_0000_0000) as u64
    }

    /// Builds the CPU and runs the reset sequence on it. Fails where the
    /// reset vector cannot be read.
    pub fn new(bus: &mut Bus) -> (r: Result<Self, NesError>)
        requires
            old(bus).wf(),
        ensures
            final(bus).wf(),
            ({
                let m = Machine::start(CPURegisters::power_up(), old(bus)@).reset();
                &&& final(bus)@ == m.bus
                &&& match r {
                    Ok(cpu) => m.fault is None && cpu.regs() == m.regs && cpu.cycles() == 7
                        && cpu.previous_regs() == CPURegisters::power_up(),
                    Err(e) => m.fault == Some(e),
                }
            }),
    {
        let mut this = Self {
            registers: CPURegisters::new(),
            old_register_state: CPURegisters::new(),
            total_cycles: 0,
        };
        match this.reset(bus) {
            Ok(_) => Ok(this),
            Err(e) => Err(e),
        }
    }

    /// The registers.
    pub fn registers(&self) -> (r: CPURegisters)
        ensures
            r == self.regs(),
    {
        self.registers
    }

    /// The registers before the step that ran last.
    pub fn old_registers(&self) -> (r: CPURegisters)
        ensures
            r == self.previous_regs(),
    {
        self.old_register_state
    }

    /// Replaces the registers.
    pub fn set_registers(&mut self, regs: CPURegisters)
        ensures
            final(self).regs() == regs,
            final(self).previous_regs() == old(self).previous_regs(),
            final(self).cycles() == old(self).cycles(),
    {
        self.registers = regs;
    }

    /// The cycles since power-up, wrapping.
    pub fn total_cycles(&self) -> (r: u64)
        ensures
            r == self.cycles(),
    {
        self.total_cycles
    }

    /// Runs the reset sequence. Where the vector cannot be read the
    /// registers stay as they are.
    pub fn reset(&mut self, bus: &mut Bus) -> (r: Result<(), NesError>)
        requires
            old(bus).wf(),
        ensures
            final(bus).wf(),
            old(self).machine(old(bus)).reset().agrees(r, final(self).regs(), final(bus)@),
            r is Ok ==> final(self).cycles() == Self::cycles_after(old(self).cycles(), 7),
            r is Err ==> final(self).cycles() == old(self).cycles(),
            final(self).previous_regs() == old(self).previous_regs(),
    {
        proof {
            reveal(Machine::reset);
        }
        let vector = self.read_pointer(0xFFFC, 0xFFFD, bus)?;
        self.registers.program_counter = vector;
        self.total_cycles = self.total_cycles.wrapping_add(7);
        self.registers.stack_ptr = self.registers.stack_ptr.wrapping_sub(3);
        self.registers.status_register = set_flag(self.registers.status_register, INT_DISABLE);
        assert(self.registers.stack_ptr == add8(old(self).registers.stack_ptr, 253)) by {
            let sp = old(self).registers.stack_ptr;
            if sp >= 3 {
                assert(sp - 3 == (sp + 253) % 256);
            }
        }
        Ok(())
    }

    /// Writes the line of the execution trace for the instruction that the
    /// next step will run. Memory is looked at and not changed.
    pub fn write_opcode(&self, bus: &mut Bus) -> (r: Result<Vec<char>, NesError>)
        requires
            old(bus).wf(),
        ensures
            final(bus)@ == old(bus)@,
            match r {
                Ok(line) => crate::trace::trace_line(self.regs(), self.cycles(), old(bus)@) == Ok::<
                    Seq<char>,
                    NesError,
                >(line@),
                Err(e) => crate::trace::trace_line(self.regs(), self.cycles(), old(bus)@) == Err::<
                    Seq<char>,
                    NesError,
                >(e),
            },
    {
        crate::trace::write_opcode(&self.registers, self.total_cycles, bus)
    }

    /// Steps the CPU by one whole instruction, or by the interrupt sequence
    /// where an interrupt is pending, and returns the cycles that took.
    /// A pending interrupt is acknowledged.
    pub fn step(&mut self, bus: &mut Bus, pending_interrupt: &mut bool) -> (r: Result<
        u8,
        NesError,
    >)
        requires
            old(bus).wf(),
        ensures
            final(bus).wf(),
            !*final(pending_interrupt),
            final(self).previous_regs() == old(self).regs(),
            ({
                let (m, cycles) = old(self).machine(old(bus)).step(*old(pending_interrupt));
                &&& r == outcome(m, cycles)
                &&& m.agrees(r, final(self).regs(), final(bus)@)
                &&& r is Ok && !*old(pending_interrupt) ==> final(self).cycles()
                    == Self::cycles_after(old(self).cycles(), cycles as int)
                &&& r is Ok && *old(pending_interrupt) ==> final(self).cycles()
                    == Self::cycles_after(old(self).cycles(), 7)
            }),
            r is Err ==> final(self).cycles() == old(self).cycles(),
            r is Ok ==> 2 <= r->Ok_0 <= 9,
    {
        proof {
            reveal(Machine::step);
        }
        self.old_register_state = self.registers;
        if *pending_interrupt {
            *pending_interrupt = false;
            return self.handle_irq(bus);
        }
        let opcode = self.fetch_byte(bus)?;
        let cycle_count = self.execute_opcode(opcode, bus)?;
        self.total_cycles = self.total_cycles.wrapping_add(cycle_count as u64);
        Ok(cycle_count)
    }

    /// Reads the byte at the program counter and moves the program counter
    /// on.
    fn fetch_byte(&mut self, bus: &mut Bus) -> (r: Result<u8, NesError>)
        requires
            old(bus).wf(),
        ensures
            final(bus).wf(),
            final(self).previous_regs() == old(self).previous_regs(),
            final(self).cycles() == old(self).cycles(),
            ({
                let (m, b) = old(self).machine(old(bus)).fetch();
                &&& m.agrees(r, final(self).regs(), final(bus)@)
                &&& r is Ok ==> r->Ok_0 == b
            }),
    {
        let b = bus.cpu_read_byte(self.registers.program_counter as usize)?;
        self.registers.program_counter = offset16(self.registers.program_counter, 1);
        Ok(b)
    }

    /// Reads the address whose low byte is at `lo_addr` and whose high byte
    /// is at `hi_addr`.
    fn read_pointer(&self, lo_addr: u16, hi_addr: u16, bus: &mut Bus) -> (r: Result<u16, NesError>)
        requires
            old(bus).wf(),
        ensures
            final(bus).wf(),
            ({
                let (m, w) = self.machine(old(bus)).read_pointer(lo_addr as int, hi_addr as int);
                &&& m.agrees(r, self.regs(), final(bus)@)
                &&& r is Ok ==> r->Ok_0 == w
            }),
    {
        let lo = bus.cpu_read_byte(lo_addr as usize)?;
        let hi = bus.cpu_read_byte(hi_addr as usize)?;
        Ok(make_word(lo, hi))
    }

    /// Pushes a byte onto the stack.
    fn push_stack(&mut self, data: u8, bus: &mut Bus) -> (r: Result<(), NesError>)
        requires
            old(bus).wf(),
        ensures
            final(bus).wf(),
            final(self).previous_regs() == old(self).previous_regs(),
            final(self).cycles() == old(self).cycles(),
            old(self).machine(old(bus)).push(data).agrees(r, final(self).regs(), final(bus)@),
    {
        bus.cpu_write_byte(
            (self.registers.stack_ptr as u16 + CPU::STACK_PG_START) as usize,
            data,
        )?;
        self.registers.stack_ptr = dec(self.registers.stack_ptr);
        Ok(())
    }

    /// Pops a byte off the stack.
    fn pop_stack(&mut self, bus: &mut Bus) -> (r: Result<u8, NesError>)
        requires
            old(bus).wf(),
        ensures
            final(bus).wf(),
            final(self).previous_regs() == old(self).previous_regs(),
            final(self).cycles() == old(self).cycles(),
            ({
                let (m, b) = old(self).machine(old(bus)).pop();
                &&& m.agrees(r, final(self).regs(), final(bus)@)
                &&& r is Ok ==> r->Ok_0 == b
            }),
    {
        self.registers.stack_ptr = inc(self.registers.stack_ptr);
        bus.cpu_read_byte((self.registers.stack_ptr as u16 + CPU::STACK_PG_START) as usize)
    }

    /// Pushes an address, high byte first.
    fn push_word(&mut self, w: u16, bus: &mut Bus) -> (r: Result<(), NesError>)
        requires
            old(bus).wf(),
        ensures
            final(bus).wf(),
            final(self).previous_regs() == old(self).previous_regs(),
            final(self).cycles() == old(self).cycles(),
            old(self).machine(old(bus)).push_word(w).agrees(r, final(self).regs(), final(bus)@),
    {
        self.push_stack(high_byte(w), bus)?;
        self.push_stack(low_byte(w), bus)
    }

    /// Pops an address, low byte first.
    fn pop_word(&mut self, bus: &mut Bus) -> (r: Result<u16, NesError>)
        requires
            old(bus).wf(),
        ensures
            final(bus).wf(),
            final(self).previous_regs() == old(self).previous_regs(),
            final(self).cycles() == old(self).cycles(),
            ({
                let (m, w) = old(self).machine(old(bus)).pop_word();
                &&& m.agrees(r, final(self).regs(), final(bus)@)
                &&& r is Ok ==> r->Ok_0 == w
            }),
    {
        let lo = self.pop_stack(bus)?;
        let hi = self.pop_stack(bus)?;
        Ok(make_word(lo, hi))
    }

    /// Handles an interrupt request: the return address and the status go
    /// onto the stack and the program counter comes from the interrupt
    /// vector.
    pub fn handle_irq(&mut self, bus: &mut Bus) -> (r: Result<u8, NesError>)
        requires
            old(bus).wf(),
        ensures
            final(bus).wf(),
            final(self).previous_regs() == old(self).previous_regs(),
            ({
                let (m, cycles) = old(self).machine(old(bus)).interrupt();
                &&& r == outcome(m, cycles)
                &&& m.agrees(r, final(self).regs(), final(bus)@)
                &&& r is Ok ==> final(self).cycles() == Self::cycles_after(old(self).cycles(), 7)
            }),
            r is Err ==> final(self).cycles() == old(self).cycles(),
            r is Ok ==> r->Ok_0 == 8,
    {
        proof {
            reveal(Machine::interrupt);
        }
        self.push_word(self.registers.program_counter, bus)?;
        let sr = self.registers.status_register;
        self.registers.status_register = set_flag(self.registers.status_register, INT_DISABLE);
        self.push_stack(sr, bus)?;
        let vector = self.read_pointer(0xFFFA, 0xFFFB, bus)?;
        self.registers.program_counter = vector;
        self.total_cycles = self.total_cycles.wrapping_add(7);
        Ok(8)
    }

    /// Decodes an opcode byte and fetches the operand bytes of the
    /// instruction.
    pub fn lookup_opcode(&mut self, opcode: u8, bus: &mut Bus) -> (r: Result<Opcode, NesError>)
        requires
            old(bus).wf(),
        ensures
            final(bus).wf(),
            final(self).previous_regs() == old(self).previous_regs(),
            final(self).cycles() == old(self).cycles(),
            ({
                let (m, op) = old(self).machine(old(bus)).lookup(opcode);
                &&& m.agrees(r, final(self).regs(), final(bus)@)
                &&& r is Ok ==> r->Ok_0 == op && 2 <= op.cycles <= 7
            }),
    {
        proof {
            reveal(Machine::lookup);
        }
        let (mnemonic, mode, cycles) = match decode(opcode) {
            Some(entry) => entry,
            None => { return Err(NesError::Decode); },
        };
        proof {
            crate::instruction::lemma_cycles_bounded(opcode);
        }
        let num_bytes = operand_len(mode);
        let mut operand_lo: u8 = 0;
        let mut operand_hi: u8 = 0;
        if num_bytes >= 2 {
            operand_lo = self.fetch_byte(bus)?;
        }
        if num_bytes >= 3 {
            operand_hi = self.fetch_byte(bus)?;
        }
        Ok(Opcode { mnemonic, mode, code: opcode, operand_lo, operand_hi, num_bytes, cycles })
    }

    /// The address that the operand bytes of an absolute instruction spell.
    pub fn fetch_absolute_base_addr(&self, opcode: &Opcode) -> (r: u16)
        ensures
            r == word(opcode.operand_lo, opcode.operand_hi),
    {
        make_word(opcode.operand_lo, opcode.operand_hi)
    }

    /// The address that the zero-page pointer of an indirect indexed
    /// instruction holds, before the index is added.
    pub fn fetch_indirect_y_base_addr(&self, opcode: &Opcode, bus: &mut Bus) -> (r: Result<
        u16,
        NesError,
    >)
        requires
            old(bus).wf(),
        ensures
            final(bus).wf(),
            ({
                let (m, w) = self.machine(old(bus)).read_pointer(
                    opcode.operand_lo as int,
                    add8(opcode.operand_lo, 1) as int,
                );
                &&& m.agrees(r, self.regs(), final(bus)@)
                &&& r is Ok ==> r->Ok_0 == w
            }),
    {
        self.read_pointer(opcode.operand_lo as u16, offset8(opcode.operand_lo, 1) as u16, bus)
    }

    /// Finds the operand of an instruction whose bytes were fetched.
    fn fetch_operand_address(&mut self, opcode: &Opcode, bus: &mut Bus) -> (r: Result<
        Operand,
        NesError,
    >)
        requires
            old(bus).wf(),
        ensures
            final(bus).wf(),
            final(self).previous_regs() == old(self).previous_regs(),
            final(self).cycles() == old(self).cycles(),
            ({
                let (m, operand) = old(self).machine(old(bus)).resolve(*opcode);
                &&& m.agrees(r, final(self).regs(), final(bus)@)
                &&& r is Ok ==> r->Ok_0 == operand
            }),
    {
        proof {
            reveal(Machine::resolve);
        }
        let lo = opcode.operand_lo;
        match opcode.mode {
            AddressMode::INDIRECTX => {
                let lsb_addr = offset8(lo, self.registers.x_reg);
                let msb_addr = offset8(lsb_addr, 1);
                let a = self.read_pointer(lsb_addr as u16, msb_addr as u16, bus)?;
                Ok(Operand { addr: a, base: a })
            },
            AddressMode::INDIRECTY => {
                let base = self.fetch_indirect_y_base_addr(opcode, bus)?;
                Ok(Operand { addr: offset16(base, self.registers.y_reg as u16), base })
            },
            AddressMode::INDIRECT => {
                let base = self.fetch_absolute_base_addr(opcode);
                let a = self.read_pointer(base, indirect_high_addr(base), bus)?;
                Ok(Operand { addr: a, base: a })
            },
            _ => Ok(self.direct_operand_address(opcode)),
        }
    }

    /// Finds the operand of an instruction whose addressing mode needs no
    /// pointer from memory.
    fn direct_operand_address(&self, opcode: &Opcode) -> (r: Operand)
        ensures
            r == direct_operand(self.regs(), *opcode),
    {
        let lo = opcode.operand_lo;
        match opcode.mode {
            AddressMode::IMMEDIATE => {
                let a = offset16(self.registers.program_counter, 0xFFFF);
                Operand { addr: a, base: a }
            },
            AddressMode::ABSOLUTE(_) => {
                let a = self.fetch_absolute_base_addr(opcode);
                Operand { addr: a, base: a }
            },
            AddressMode::RELATIVE => {
                let high: u16 = if lo >= 128 { 0xFF00 } else { 0 };
                let a = offset16(offset16(self.registers.program_counter, lo as u16), high);
                Operand { addr: a, base: a }
            },
            AddressMode::ZEROPAGE => Operand { addr: lo as u16, base: lo as u16 },
            AddressMode::ZEROPAGEX => {
                let a = offset8(lo, self.registers.x_reg) as u16;
                Operand { addr: a, base: a }
            },
            AddressMode::ZEROPAGEY => {
                let a = offset8(lo, self.registers.y_reg) as u16;
                Operand { addr: a, base: a }
            },
            AddressMode::ABSOLUTEX => {
                let base = self.fetch_absolute_base_addr(opcode);
                Operand { addr: offset16(base, self.registers.x_reg as u16), base }
            },
            AddressMode::ABSOLUTEY => {
                let base = self.fetch_absolute_base_addr(opcode);
                Operand { addr: offset16(base, self.registers.y_reg as u16), base }
            },
            _ => Operand { addr: 0, base: 0 },
        }
    }

    /// The cycles of an instruction that reads its operand: one more than
    /// the base where an index took the address into another page.
    pub fn adjust_cycles(opcode: &Opcode, operand: &Operand) -> (r: u8)
        requires
            opcode.cycles < 255,
        ensures
            r == adjusted_cycles(*opcode, *operand),
    {
        let indexed = match opcode.mode {
            AddressMode::INDIRECTY | AddressMode::ABSOLUTEX | AddressMode::ABSOLUTEY => true,
            _ => false,
        };
        if indexed && will_cross_boundary(operand.base, operand.addr) {
            opcode.cycles + 1
        } else {
            opcode.cycles
        }
    }

    /// Carries out an instruction that jumps or uses the stack.
    fn execute_control(&mut self, opcode: &Opcode, operand: &Operand, bus: &mut Bus) -> (r: Result<
        u8,
        NesError,
    >)
        requires
            old(bus).wf(),
            Machine::is_control(opcode.mnemonic),
        ensures
            final(bus).wf(),
            final(self).previous_regs() == old(self).previous_regs(),
            final(self).cycles() == old(self).cycles(),
            ({
                let (m, cycles) = old(self).machine(old(bus)).execute_control(*opcode, *operand);
                &&& r == outcome(m, cycles)
                &&& m.agrees(r, final(self).regs(), final(bus)@)
            }),
            r is Ok ==> r->Ok_0 == opcode.cycles,
    {
        proof {
            reveal(Machine::execute_control);
        }
        let p = self.registers.status_register;
        match opcode.mnemonic {
            Mnemonic::JMP => {
                self.registers.program_counter = operand.addr;
            },
            Mnemonic::JSR => {
                self.push_word(offset16(self.registers.program_counter, 0xFFFF), bus)?;
                self.registers.program_counter = operand.addr;
            },
            Mnemonic::RTS => {
                let w = self.pop_word(bus)?;
                self.registers.program_counter = offset16(w, 1);
            },
            Mnemonic::RTI => {
                let b = self.pop_stack(bus)?;
                self.registers.status_register = set_status_register(p, b);
                let w = self.pop_word(bus)?;
                self.registers.program_counter = w;
            },
            Mnemonic::PHA => {
                self.push_stack(self.registers.accumulator, bus)?;
            },
            Mnemonic::PHP => {
                self.push_stack(set_flag(p, BFLAG), bus)?;
            },
            Mnemonic::PLA => {
                let b = self.pop_stack(bus)?;
                self.registers.accumulator = b;
                self.registers.status_register = set_nz(p, b);
            },
            Mnemonic::PLP => {
                let b = self.pop_stack(bus)?;
                self.registers.status_register = set_status_register(p, b);
            },
            _ => {
                self.push_word(offset16(self.registers.program_counter, 1), bus)?;
                self.push_stack(set_flag(p, BFLAG), bus)?;
                self.registers.status_register = set_flag(p, INT_DISABLE);
                let vector = self.read_pointer(0xFFFE, 0xFFFF, bus)?;
                self.registers.program_counter = vector;
            },
        }
        Ok(opcode.cycles)
    }

    /// Carries out an instruction that works on memory or registers by
    /// the rules of its class.
    fn execute_plain(&mut self, opcode: &Opcode, operand: &Operand, bus: &mut Bus) -> (r: Result<
        u8,
        NesError,
    >)
        requires
            old(bus).wf(),
            !Machine::is_control(opcode.mnemonic),
            opcode.cycles <= 253,
        ensures
            final(bus).wf(),
            final(self).previous_regs() == old(self).previous_regs(),
            final(self).cycles() == old(self).cycles(),
            ({
                let (m, cycles) = old(self).machine(old(bus)).execute_plain(*opcode, *operand);
                &&& r == outcome(m, cycles)
                &&& m.agrees(r, final(self).regs(), final(bus)@)
            }),
            r is Ok ==> opcode.cycles <= r->Ok_0 <= opcode.cycles + 2,
    {
        proof {
            reveal(Machine::execute_plain);
        }
        let mn = opcode.mnemonic;
        match mn {
            Mnemonic::LDA
            | Mnemonic::LDX
            | Mnemonic::LDY
            | Mnemonic::AND
            | Mnemonic::ORA
            | Mnemonic::EOR
            | Mnemonic::ADC
            | Mnemonic::SBC
            | Mnemonic::CPA
            | Mnemonic::CPX
            | Mnemonic::CPY
            | Mnemonic::BIT => {
                let byte = bus.cpu_read_byte(operand.addr as usize)?;
                self.registers = read_op(mn, self.registers, byte);
                Ok(Self::adjust_cycles(opcode, operand))
            },
            Mnemonic::ASL
            | Mnemonic::LSR
            | Mnemonic::ROL
            | Mnemonic::ROR
            | Mnemonic::INC
            | Mnemonic::DEC => {
                match opcode.mode {
                    AddressMode::ACCUMULATOR => {
                        let (p, a) = modify_op(
                            mn,
                            self.registers.status_register,
                            self.registers.accumulator,
                        );
                        self.registers.accumulator = a;
                        self.registers.status_register = p;
                    },
                    _ => {
                        let byte = bus.cpu_read_byte(operand.addr as usize)?;
                        let (p, out) = modify_op(mn, self.registers.status_register, byte);
                        bus.cpu_write_byte(operand.addr as usize, out)?;
                        self.registers.status_register = p;
                    },
                }
                Ok(opcode.cycles)
            },
            Mnemonic::STA | Mnemonic::STX | Mnemonic::STY => {
                let value = match mn {
                    Mnemonic::STX => self.registers.x_reg,
                    Mnemonic::STY => self.registers.y_reg,
                    _ => self.registers.accumulator,
                };
                bus.cpu_write_byte(operand.addr as usize, value)?;
                Ok(opcode.cycles)
            },
            Mnemonic::BCC
            | Mnemonic::BCS
            | Mnemonic::BEQ
            | Mnemonic::BNE
            | Mnemonic::BVS
            | Mnemonic::BVC
            | Mnemonic::BPL
            | Mnemonic::BMI => {
                let (flag, set) = branch_flag(mn);
                let (regs, cycles) = branchif(self.registers, operand.addr, set, opcode.cycles, flag);
                self.registers = regs;
                Ok(cycles)
            },
            _ => {
                self.registers = register_op(mn, self.registers);
                Ok(opcode.cycles)
            },
        }
    }

    /// Fetches the operand bytes of the opcode byte `opcode_val`, finds
    /// the operand, carries the instruction out and returns the cycles it
    /// took. The opcode byte itself was fetched before.
    pub fn execute_opcode(&mut self, opcode_val: u8, bus: &mut Bus) -> (r: Result<u8, NesError>)
        requires
            old(bus).wf(),
        ensures
            final(bus).wf(),
            final(self).previous_regs() == old(self).previous_regs(),
            final(self).cycles() == old(self).cycles(),
            ({
                let (m, cycles) = old(self).machine(old(bus)).execute_opcode(opcode_val);
                &&& r == outcome(m, cycles)
                &&& m.agrees(r, final(self).regs(), final(bus)@)
            }),
            r is Ok ==> 2 <= r->Ok_0 <= 9,
    {
        proof {
            reveal(Machine::execute_opcode);
        }
        let opcode = self.lookup_opcode(opcode_val, bus)?;
        let operand = self.fetch_operand_address(&opcode, bus)?;
        match opcode.mnemonic {
            Mnemonic::JMP
            | Mnemonic::JSR
            | Mnemonic::RTS
            | Mnemonic::RTI
            | Mnemonic::PHA
            | Mnemonic::PHP
            | Mnemonic::PLA
            | Mnemonic::PLP
            | Mnemonic::BRK => self.execute_control(&opcode, &operand, bus),
            _ => self.execute_plain(&opcode, &operand, bus),
        }
    }
}

} // verus!
