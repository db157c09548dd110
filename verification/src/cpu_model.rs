//! The mathematical model of the CPU: what one step makes of the
//! registers and the bus.

use vstd::prelude::*;
use crate::alu::{
    branch_model, branch_taken, crosses_page, dec8, inc8, is_branch_op, is_modify_op, is_read_op,
    is_register_op, is_store_op, lemma_alu_keeps_unused, lemma_flag_keeps_unused,
    lemma_status_from_stack, modify_op_model, read_op_model, register_op_model,
    status_from_stack, store_value, with_nz, CPURegisters, BFLAG, INT_DISABLE, NEGATIVE, UNUSED,
    ZERO,
};
use crate::bits::{bit8, with_bit8};
use crate::bus_model::{word, BusModel};
use crate::error::NesError;
use crate::instruction::{mode_len, opcode_entry, AddressMode, Mnemonic, Opcode};

verus! {

/// The CPU and the bus in the middle of a step. Once an access or the
/// decoder failed, `fault` holds the first failure and the step is over:
/// the registers and the bus stay as they were at the failure.
pub struct Machine {
    pub regs: CPURegisters,
    pub bus: BusModel,
    pub fault: Option<NesError>,
}

/// Where an instruction finds its operand: the address, and the address
/// before an index register was added (the address itself where none was).
pub struct Operand {
    pub addr: u16,
    pub base: u16,
}

/// The address `d` after `a`, wrapping at the end of the address space.
pub open spec fn add16(a: u16, d: int) -> u16 {
    ((a + d) % 0x10000) as u16
}

/// The zero-page address `d` after `a`, wrapping inside the zero page.
pub open spec fn add8(a: u8, d: int) -> u8 {
    ((a + d) % 256) as u8
}

/// The address of the high byte of an indirect jump through `base`: the
/// byte after `base` in the same page, so that a pointer in the last byte
/// of a page takes its high byte from the first byte of that page.
pub open spec fn indirect_high(base: u16) -> u16 {
    ((base / 256) * 256 + (base + 1) % 256) as u16
}

/// The target of a branch with the offset byte `offset`, a signed number,
/// from the address `pc`.
pub open spec fn branch_target(pc: u16, offset: u8) -> u16 {
    add16(add16(pc, offset as int), if offset >= 128 { 0xFF00 } else { 0 })
}

/// The cycles of an instruction that reads its operand: one more than the
/// base where an index took the address into another page.
pub open spec fn adjusted_cycles(op: Opcode, operand: Operand) -> u8 {
    if (op.mode == AddressMode::INDIRECTY || op.mode == AddressMode::ABSOLUTEX || op.mode
        == AddressMode::ABSOLUTEY) && crosses_page(operand.base, operand.addr) {
        (op.cycles + 1) as u8
    } else {
        op.cycles
    }
}

/// The operand of an instruction whose addressing mode needs no pointer
/// from memory.
pub open spec fn direct_operand(regs: CPURegisters, op: Opcode) -> Operand {
    let lo = op.operand_lo;
    let abs = word(op.operand_lo, op.operand_hi);
    match op.mode {
        AddressMode::IMMEDIATE => {
            let a = add16(regs.program_counter, 0xFFFF);
            Operand { addr: a, base: a }
        },
        AddressMode::ABSOLUTE(_) => Operand { addr: abs, base: abs },
        AddressMode::RELATIVE => {
            let a = branch_target(regs.program_counter, lo);
            Operand { addr: a, base: a }
        },
        AddressMode::ZEROPAGE => Operand { addr: lo as u16, base: lo as u16 },
        AddressMode::ZEROPAGEX => {
            let a = add8(lo, regs.x_reg as int) as u16;
            Operand { addr: a, base: a }
        },
        AddressMode::ZEROPAGEY => {
            let a = add8(lo, regs.y_reg as int) as u16;
            Operand { addr: a, base: a }
        },
        AddressMode::ABSOLUTEX => Operand { addr: add16(abs, regs.x_reg as int), base: abs },
        AddressMode::ABSOLUTEY => Operand { addr: add16(abs, regs.y_reg as int), base: abs },
        _ => Operand { addr: 0, base: 0 },
    }
}

/// What a step reports: the cycles, or the failure.
pub open spec fn outcome(m: Machine, cycles: u8) -> Result<u8, NesError> {
    match m.fault {
        Some(e) => Err(e),
        None => Ok(cycles),
    }
}

impl Machine {
    /// The machine at the start of a step.
    pub open spec fn start(regs: CPURegisters, bus: BusModel) -> Machine {
        Machine { regs, bus, fault: None }
    }

    /// Whether the registers `regs`, the bus `bus` and the result `r` of an
    /// executable step are what this machine stands for.
    pub open spec fn agrees<T>(self, r: Result<T, NesError>, regs: CPURegisters, bus: BusModel) -> bool {
        &&& self.regs == regs
        &&& self.bus == bus
        &&& match r {
            Ok(_) => self.fault is None,
            Err(e) => self.fault == Some(e),
        }
    }

    /// The machine with the registers `regs`; after a failure nothing
    /// changes any more.
    pub open spec fn with_regs(self, regs: CPURegisters) -> Machine {
        if self.fault is Some {
            self
        } else {
            Machine { regs, ..self }
        }
    }

    /// The machine with the status `p`.
    pub open spec fn with_status(self, p: u8) -> Machine {
        self.with_regs(CPURegisters { status_register: p, ..self.regs })
    }

    /// The machine with the program counter `pc`.
    pub open spec fn with_pc(self, pc: u16) -> Machine {
        self.with_regs(CPURegisters { program_counter: pc, ..self.regs })
    }

    /// Reads the byte at `addr` through the bus.
    pub open spec fn read(self, addr: int) -> (Machine, u8) {
        if self.fault is Some {
            (self, 0u8)
        } else {
            match self.bus.peek(addr) {
                Ok(b) => (Machine { bus: self.bus.after_read(addr), ..self }, b),
                Err(e) => (
                    Machine { bus: self.bus.after_read(addr), fault: Some(e), ..self },
                    0u8,
                ),
            }
        }
    }

    /// Writes `value` at `addr` through the bus.
    pub open spec fn write(self, addr: int, value: u8) -> Machine {
        if self.fault is Some {
            self
        } else {
            match self.bus.write_result(addr) {
                Ok(_) => Machine { bus: self.bus.after_write(addr, value), ..self },
                Err(e) => Machine {
                    bus: self.bus.after_write(addr, value),
                    fault: Some(e),
                    ..self
                },
            }
        }
    }

    /// Pushes `value`: it goes to the stack page at the stack pointer,
    /// which then moves down, wrapping.
    pub open spec fn push(self, value: u8) -> Machine {
        let m = self.write(0x100 + self.regs.stack_ptr, value);
        m.with_regs(CPURegisters { stack_ptr: dec8(self.regs.stack_ptr), ..m.regs })
    }

    /// Pops a byte: the stack pointer moves up, wrapping, and the byte
    /// comes from the stack page there.
    pub open spec fn pop(self) -> (Machine, u8) {
        let sp = inc8(self.regs.stack_ptr);
        self.with_regs(CPURegisters { stack_ptr: sp, ..self.regs }).read(0x100 + sp)
    }

    /// Pushes the address `w`, high byte first.
    pub open spec fn push_word(self, w: u16) -> Machine {
        self.push((w / 256) as u8).push((w % 256) as u8)
    }

    /// Pops an address, low byte first.
    pub open spec fn pop_word(self) -> (Machine, u16) {
        let (m1, lo) = self.pop();
        let (m2, hi) = m1.pop();
        (m2, word(lo, hi))
    }

    /// Reads the address that the two bytes at `addr` and `addr + 1` hold.
    pub open spec fn read_word(self, addr: int) -> (Machine, u16) {
        self.read_pointer(addr, addr + 1)
    }

    /// Reads the byte at the program counter, which then moves on.
    pub open spec fn fetch(self) -> (Machine, u8) {
        let (m, b) = self.read(self.regs.program_counter as int);
        (m.with_pc(add16(self.regs.program_counter, 1)), b)
    }

    /// Decodes the opcode byte `code` and fetches the operand bytes that
    /// its addressing mode asks for. A byte outside the table is a failure.
    #[verifier::opaque]
    pub open spec fn lookup(self, code: u8) -> (Machine, Opcode) {
        match opcode_entry(code) {
            None => (
                Machine {
                    fault: if self.fault is Some {
                        self.fault
                    } else {
                        Some(NesError::Decode)
                    },
                    ..self
                },
                Opcode {
                    mnemonic: Mnemonic::NOP,
                    mode: AddressMode::IMPLIED,
                    code,
                    operand_lo: 0,
                    operand_hi: 0,
                    num_bytes: 1,
                    cycles: 2,
                },
            ),
            Some((mnemonic, mode, cycles)) => {
                let len = mode_len(mode);
                let (m1, lo) = if len >= 2 {
                    self.fetch()
                } else {
                    (self, 0u8)
                };
                let (m2, hi) = if len >= 3 {
                    m1.fetch()
                } else {
                    (m1, 0u8)
                };
                (
                    m2,
                    Opcode {
                        mnemonic,
                        mode,
                        code,
                        operand_lo: lo,
                        operand_hi: hi,
                        num_bytes: len,
                        cycles,
                    },
                )
            },
        }
    }

    /// Reads the address whose low byte is at `lo_addr` and whose high byte
    /// is at `hi_addr`.
    pub open spec fn read_pointer(self, lo_addr: int, hi_addr: int) -> (Machine, u16) {
        let (m1, l) = self.read(lo_addr);
        let (m2, h) = m1.read(hi_addr);
        (m2, word(l, h))
    }

    /// Finds the operand of `op`, after its bytes were fetched. The modes
    /// that go through a pointer read it; the others need the registers
    /// only.
    #[verifier::opaque]
    pub open spec fn resolve(self, op: Opcode) -> (Machine, Operand) {
        let lo = op.operand_lo;
        let abs = word(op.operand_lo, op.operand_hi);
        match op.mode {
            AddressMode::INDIRECTX => {
                let ptr = add8(lo, self.regs.x_reg as int);
                let (m, w) = self.read_pointer(ptr as int, add8(ptr, 1) as int);
                (m, Operand { addr: w, base: w })
            },
            AddressMode::INDIRECTY => {
                let (m, w) = self.read_pointer(lo as int, add8(lo, 1) as int);
                (m, Operand { addr: add16(w, self.regs.y_reg as int), base: w })
            },
            AddressMode::INDIRECT => {
                let (m, w) = self.read_pointer(abs as int, indirect_high(abs) as int);
                (m, Operand { addr: w, base: w })
            },
            _ => (self, direct_operand(self.regs, op)),
        }
    }

    /// Carries out an instruction that works on memory or registers by the
    /// rules of its class.
    #[verifier::opaque]
    pub open spec fn execute_plain(self, op: Opcode, operand: Operand) -> (Machine, u8) {
        let mn = op.mnemonic;
        if is_read_op(mn) {
            let (m1, b) = self.read(operand.addr as int);
            (m1.with_regs(read_op_model(mn, m1.regs, b)), adjusted_cycles(op, operand))
        } else if is_modify_op(mn) {
            if op.mode == AddressMode::ACCUMULATOR {
                let (p, a) = modify_op_model(mn, self.regs.status_register, self.regs.accumulator);
                (
                    self.with_regs(
                        CPURegisters { accumulator: a, status_register: p, ..self.regs },
                    ),
                    op.cycles,
                )
            } else {
                let (m1, b) = self.read(operand.addr as int);
                let (p, out) = modify_op_model(mn, m1.regs.status_register, b);
                (m1.write(operand.addr as int, out).with_status(p), op.cycles)
            }
        } else if is_store_op(mn) {
            (self.write(operand.addr as int, store_value(mn, self.regs)), op.cycles)
        } else if is_register_op(mn) {
            (self.with_regs(register_op_model(mn, self.regs)), op.cycles)
        } else {
            let (regs, cycles) = branch_model(
                self.regs,
                operand.addr,
                branch_taken(mn, self.regs.status_register),
                op.cycles,
            );
            (self.with_regs(regs), cycles)
        }
    }

    /// Carries out an instruction that jumps or uses the stack.
    #[verifier::opaque]
    pub open spec fn execute_control(self, op: Opcode, operand: Operand) -> (Machine, u8) {
        let p = self.regs.status_register;
        match op.mnemonic {
            Mnemonic::JMP => (self.with_pc(operand.addr), op.cycles),
            Mnemonic::JSR => (
                self.push_word(add16(self.regs.program_counter, 0xFFFF)).with_pc(operand.addr),
                op.cycles,
            ),
            Mnemonic::RTS => {
                let (m, w) = self.pop_word();
                (m.with_pc(add16(w, 1)), op.cycles)
            },
            Mnemonic::RTI => {
                let (m1, b) = self.pop();
                let (m2, w) = m1.with_status(status_from_stack(p, b)).pop_word();
                (m2.with_pc(w), op.cycles)
            },
            Mnemonic::PHA => (self.push(self.regs.accumulator), op.cycles),
            Mnemonic::PHP => (self.push(with_bit8(p, BFLAG, true)), op.cycles),
            Mnemonic::PLA => {
                let (m, b) = self.pop();
                (
                    m.with_regs(
                        CPURegisters { accumulator: b, status_register: with_nz(p, b), ..m.regs },
                    ),
                    op.cycles,
                )
            },
            Mnemonic::PLP => {
                let (m, b) = self.pop();
                (m.with_status(status_from_stack(p, b)), op.cycles)
            },
            _ => {
                let m1 = self.push_word(add16(self.regs.program_counter, 1)).push(
                    with_bit8(p, BFLAG, true),
                ).with_status(with_bit8(p, INT_DISABLE, true));
                let (m2, w) = m1.read_word(0xFFFE);
                (m2.with_pc(w), op.cycles)
            },
        }
    }

    /// Whether the instruction jumps or uses the stack.
    pub open spec fn is_control(mn: Mnemonic) -> bool {
        matches!(
            mn,
            Mnemonic::JMP | Mnemonic::JSR | Mnemonic::RTS | Mnemonic::RTI | Mnemonic::PHA
                | Mnemonic::PHP | Mnemonic::PLA | Mnemonic::PLP | Mnemonic::BRK
        )
    }

    /// Carries out `op` on its operand, and says how many cycles it took.
    pub open spec fn execute(self, op: Opcode, operand: Operand) -> (Machine, u8) {
        if Self::is_control(op.mnemonic) {
            self.execute_control(op, operand)
        } else {
            self.execute_plain(op, operand)
        }
    }

    /// Fetches the operand bytes of the opcode byte `code`, finds the
    /// operand and carries the instruction out.
    #[verifier::opaque]
    pub open spec fn execute_opcode(self, code: u8) -> (Machine, u8) {
        let (m1, op) = self.lookup(code);
        if m1.fault is Some {
            (m1, 0u8)
        } else {
            let (m2, operand) = m1.resolve(op);
            if m2.fault is Some {
                (m2, 0u8)
            } else {
                m2.execute(op, operand)
            }
        }
    }

    /// The interrupt sequence: the program counter and the status go onto
    /// the stack, interrupts are disabled, and the program counter comes
    /// from the vector at `0xFFFA`. It is reported as eight cycles.
    #[verifier::opaque]
    pub open spec fn interrupt(self) -> (Machine, u8) {
        let p = self.regs.status_register;
        let m1 = self.push_word(self.regs.program_counter).with_status(
            with_bit8(p, INT_DISABLE, true),
        ).push(p);
        let (m2, w) = m1.read_word(0xFFFA);
        (m2.with_pc(w), 8u8)
    }

    /// One step: the interrupt sequence where an interrupt is pending, else
    /// the instruction at the program counter.
    #[verifier::opaque]
    pub open spec fn step(self, pending_interrupt: bool) -> (Machine, u8) {
        if pending_interrupt {
            self.interrupt()
        } else {
            let (m, code) = self.fetch();
            if m.fault is Some {
                (m, 0u8)
            } else {
                m.execute_opcode(code)
            }
        }
    }

    /// The reset sequence: the program counter comes from the vector at
    /// `0xFFFC`, the stack pointer moves down by three, and interrupts are
    /// disabled.
    #[verifier::opaque]
    pub open spec fn reset(self) -> Machine {
        let (m, w) = self.read_word(0xFFFC);
        m.with_regs(
            CPURegisters {
                program_counter: w,
                stack_ptr: add8(self.regs.stack_ptr, 253),
                status_register: with_bit8(self.regs.status_register, INT_DISABLE, true),
                ..m.regs
            },
        )
    }
}

/// The unused flag of the status register, once set, stays set through
/// every step, whether the step fails or not.
pub proof fn lemma_unused_stays_set(m: Machine, pending_interrupt: bool)
    requires
        bit8(m.regs.status_register, UNUSED),
    ensures
        bit8(m.step(pending_interrupt).0.regs.status_register, UNUSED),
{
    reveal(Machine::step);
    reveal(Machine::interrupt);
    reveal(Machine::execute_opcode);
    reveal(Machine::lookup);
    reveal(Machine::resolve);
    let p = m.regs.status_register;
    lemma_flag_keeps_unused(p, INT_DISABLE, true);
    if !pending_interrupt {
        let (m0, code) = m.fetch();
        let (m1, op) = m0.lookup(code);
        let (m2, operand) = m1.resolve(op);
        assert(m2.regs.status_register == p);
        lemma_execute_keeps_unused(m2, op, operand);
    }
}

/// No instruction clears the unused flag.
pub proof fn lemma_execute_keeps_unused(m: Machine, op: Opcode, operand: Operand)
    requires
        bit8(m.regs.status_register, UNUSED),
    ensures
        bit8(m.execute(op, operand).0.regs.status_register, UNUSED),
{
    reveal(Machine::execute_plain);
    reveal(Machine::execute_control);
    let p = m.regs.status_register;
    let mn = op.mnemonic;
    lemma_flag_keeps_unused(p, INT_DISABLE, true);
    lemma_flag_keeps_unused(p, BFLAG, true);
    if Machine::is_control(mn) {
        let (m1, b) = m.pop();
        lemma_status_from_stack(p, b, 0);
        lemma_flag_keeps_unused(p, ZERO, b == 0);
        lemma_flag_keeps_unused(with_bit8(p, ZERO, b == 0), NEGATIVE, bit8(b, 7));
    } else {
        let (m1, b) = m.read(operand.addr as int);
        lemma_alu_keeps_unused(mn, m1.regs, b);
        lemma_alu_keeps_unused(mn, m.regs, m.regs.accumulator);
    }
}

} // verus!
