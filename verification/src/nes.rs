//! The whole machine: the CPU, the PPU and the bus, and the loop that runs
//! them for one frame.

use vstd::prelude::*;
use crate::alu::CPURegisters;
use crate::bus::{initial_bus, Bus};
use crate::bus_model::BusModel;
use crate::cartridge_data::{parse_image, CartridgeModel};
use crate::controller::{Controller, InputEvent};
use crate::cpu::CPU;
use crate::cpu_model::Machine;
use crate::error::{LoadError, NesError};
use crate::mappers::mapper_for;
use crate::palette::Rgb;
use crate::ppu::PPU;
use crate::ppu_model::PpuModel;
use crate::screen::FrameBuffer;

verus! {

/// The cycles for which a transfer to object attribute memory stalls the
/// CPU.
pub const DMA_CYCLES: u16 = 513;

/// The state of the whole machine.
pub struct NesModel {
    pub regs: CPURegisters,
    /// The registers of the CPU before the step that ran last.
    pub previous_regs: CPURegisters,
    /// The cycles that the CPU has run since power-up, wrapping. Cycles
    /// for which a transfer stalled the CPU do not count.
    pub cpu_cycles: u64,
    pub ppu: PpuModel,
    pub bus: BusModel,
    /// Whether the machine stands still.
    pub halt: bool,
    /// Whether an interrupt waits for the CPU.
    pub pending_interrupt: bool,
    /// Whether a transfer to object attribute memory may start now: it may
    /// on every other turn of the loop.
    pub dma_read_cycle: bool,
}

/// What one turn of the loop gives.
pub struct Turn {
    pub state: NesModel,
    pub pixels: Seq<Rgb>,
    /// Whether the PPU ended the frame during the turn.
    pub finished: bool,
    /// Whether the CPU failed, so that the machine halted.
    pub failed: bool,
}

/// The PPU, the bus and the pixels after `n` dots, and whether one of them
/// ended the frame or `finished` held before.
pub open spec fn dots_run(
    ppu: PpuModel,
    bus: BusModel,
    pixels: Seq<Rgb>,
    n: int,
    finished: bool,
) -> (PpuModel, BusModel, Seq<Rgb>, bool)
    decreases n,
{
    if n <= 0 {
        (ppu, bus, pixels, finished)
    } else {
        let (p, b, px, f) = ppu.step(bus, pixels);
        dots_run(p, b, px, n - 1, finished || f)
    }
}

impl NesModel {
    pub open spec fn wf(self) -> bool {
        self.ppu.wf() && self.bus.wf()
    }

    /// One turn of the loop. The interrupt that the PPU raised is taken
    /// over. Then a pending transfer to object attribute memory is done, if
    /// one may start, or else the CPU makes a step; a failure of the CPU
    /// halts the machine and ends the turn, with the CPU and the bus as the
    /// failed step left them. Then the PPU runs three dots for each cycle
    /// that went by.
    #[verifier::opaque]
    pub open spec fn turn(self, pixels: Seq<Rgb>) -> Turn {
        let pending = self.pending_interrupt || self.ppu.generated_interrupt;
        let ppu = PpuModel { generated_interrupt: false, ..self.ppu };
        if self.dma_read_cycle && self.bus.pending_dma {
            let (p, b, px, f) = dots_run(ppu, self.bus.after_dma(), pixels, 1539int, false);
            Turn {
                state: NesModel { ppu: p, bus: b, pending_interrupt: pending, ..self },
                pixels: px,
                finished: f,
                failed: false,
            }
        } else {
            let (m, cycles) = Machine::start(self.regs, self.bus).step(pending);
            if m.fault is Some {
                Turn {
                    state: NesModel {
                        regs: m.regs,
                        previous_regs: self.regs,
                        ppu,
                        bus: m.bus,
                        halt: true,
                        pending_interrupt: false,
                        ..self
                    },
                    pixels,
                    finished: false,
                    failed: true,
                }
            } else {
                let (p, b, px, f) = dots_run(ppu, m.bus, pixels, 3 * (cycles as int), false);
                Turn {
                    state: NesModel {
                        regs: m.regs,
                        previous_regs: self.regs,
                        cpu_cycles: CPU::cycles_after(
                            self.cpu_cycles,
                            if pending { 7 } else { cycles as int },
                        ),
                        ppu: p,
                        bus: b,
                        pending_interrupt: false,
                        ..self
                    },
                    pixels: px,
                    finished: f,
                    failed: false,
                }
            }
        }
    }

    /// The turn in which the machine stopped, after it ran until the PPU
    /// ended the frame or the CPU failed, in at most `fuel` turns.
    pub open spec fn frame(self, pixels: Seq<Rgb>, fuel: nat) -> Turn
        decreases fuel,
    {
        if fuel == 0 {
            Turn { state: self, pixels, finished: false, failed: false }
        } else {
            let t = self.turn(pixels);
            if t.failed || t.finished {
                t
            } else {
                (NesModel { dma_read_cycle: !t.state.dma_read_cycle, ..t.state }).frame(
                    t.pixels,
                    (fuel - 1) as nat,
                )
            }
        }
    }
}

pub struct NES {
    cpu: CPU,
    ppu: PPU,
    bus: Bus,
    halt: bool,
    pending_interrupt: bool,
    dma_read_cycle: bool,
}

impl NES {
    pub closed spec fn view(&self) -> NesModel {
        NesModel {
            regs: self.cpu.regs(),
            previous_regs: self.cpu.previous_regs(),
            cpu_cycles: self.cpu.cycles(),
            ppu: self.ppu@,
            bus: self.bus@,
            halt: self.halt,
            pending_interrupt: self.pending_interrupt,
            dma_read_cycle: self.dma_read_cycle,
        }
    }

    /// Whether the machine is consistent. Every function keeps it so.
    pub open spec fn wf(&self) -> bool {
        self@.wf()
    }

    /// Builds the machine around the cartridge that `image` holds and runs
    /// the reset sequence of the CPU. The machine starts halted.
    pub fn new(image: &[u8]) -> (r: Result<Self, LoadError>)
        ensures
            match r {
                Ok(nes) => {
                    &&& nes.wf()
                    &&& mapper_for(parse_image(image@)) is Ok
                    &&& Machine::start(
                        CPURegisters::power_up(),
                        initial_bus(mapper_for(parse_image(image@))->Ok_0),
                    ).reset() == Machine::start(nes@.regs, nes@.bus)
                    &&& nes@.previous_regs == CPURegisters::power_up()
                    &&& nes@.cpu_cycles == 7
                    &&& nes@.ppu == PpuModel::initial()
                    &&& nes@.halt
                    &&& !nes@.pending_interrupt
                    &&& nes@.dma_read_cycle
                },
                Err(e) => match mapper_for(parse_image(image@)) {
                    Err(load) => e == load,
                    Ok(c) => e == LoadError::NoResetVector && Machine::start(
                        CPURegisters::power_up(),
                        initial_bus(c),
                    ).reset().fault is Some,
                },
            },
    {
        let mut bus = match Bus::new(image) {
            Ok(bus) => bus,
            Err(e) => { return Err(e); },
        };
        let cpu = match CPU::new(&mut bus) {
            Ok(cpu) => cpu,
            Err(_) => { return Err(LoadError::NoResetVector); },
        };
        Ok(
            Self {
                cpu,
                ppu: PPU::new(),
                bus,
                halt: true,
                pending_interrupt: false,
                dma_read_cycle: true,
            },
        )
    }

    /// Whether the machine stands still.
    pub fn halted(&self) -> (r: bool)
        ensures
            r == self@.halt,
    {
        self.halt
    }

    /// Halts the machine, or lets it run again.
    pub fn set_halt(&mut self, halt: bool)
        ensures
            final(self)@ == (NesModel { halt, ..old(self)@ }),
    {
        self.halt = halt;
    }

    /// Hands the buttons that the host sampled to the controller.
    pub fn set_input(&mut self, event: InputEvent)
        ensures
            final(self)@ == (NesModel {
                bus: BusModel {
                    controller: Controller {
                        input_state: event.input_state,
                        ..old(self)@.bus.controller
                    },
                    ..old(self)@.bus
                },
                ..old(self)@
            }),
    {
        self.bus.set_controller_state(event);
    }

    /// The CPU.
    pub fn cpu(&self) -> (r: &CPU)
        ensures
            r.regs() == self@.regs,
            r.previous_regs() == self@.previous_regs,
            r.cycles() == self@.cpu_cycles,
    {
        &self.cpu
    }

    /// The bus.
    pub fn bus(&self) -> (r: &Bus)
        ensures
            r@ == self@.bus,
    {
        &self.bus
    }

    /// Reads one byte as the CPU would see it, and changes nothing.
    pub fn read_memory(&mut self, address: usize) -> (r: Result<u8, NesError>)
        requires
            old(self).wf(),
        ensures
            final(self)@ == old(self)@,
            r == old(self)@.bus.peek(address as int),
    {
        self.bus.cpu_read_byte_no_modify(address)
    }

    /// Writes one byte as the CPU would.
    pub fn write_memory(&mut self, address: usize, value: u8) -> (r: Result<(), NesError>)
        requires
            old(self).wf(),
        ensures
            final(self).wf(),
            final(self)@ == (NesModel {
                bus: old(self)@.bus.after_write(address as int, value),
                ..old(self)@
            }),
            r == old(self)@.bus.write_result(address as int),
    {
        self.bus.cpu_write_byte(address, value)
    }

    /// Writes the line of the execution trace for the instruction that the
    /// CPU will run next.
    pub fn trace(&mut self) -> (r: Result<Vec<char>, NesError>)
        requires
            old(self).wf(),
        ensures
            final(self)@ == old(self)@,
            r is Ok ==> crate::trace::trace_line(
                old(self)@.regs,
                old(self)@.cpu_cycles,
                old(self)@.bus,
            ) == Ok::<Seq<char>, NesError>(r->Ok_0@),
            r is Err ==> crate::trace::trace_line(
                old(self)@.regs,
                old(self)@.cpu_cycles,
                old(self)@.bus,
            ) == Err::<Seq<char>, NesError>(r->Err_0),
    {
        self.cpu.write_opcode(&mut self.bus)
    }

    /// Runs the PPU for `n` dots.
    fn run_dots<T: FrameBuffer>(&mut self, screen: &mut T, n: u16) -> (r: bool)
        requires
            old(self).wf(),
        ensures
            final(self).wf(),
            final(screen).canvas().len() == old(screen).canvas().len(),
            (final(self)@.ppu, final(self)@.bus, final(screen).canvas(), r) == dots_run(
                old(self)@.ppu,
                old(self)@.bus,
                old(screen).canvas(),
                n as int,
                false,
            ),
            final(self)@ == (NesModel {
                ppu: final(self)@.ppu,
                bus: final(self)@.bus,
                ..old(self)@
            }),
            !r ==> final(self)@.ppu.position() == old(self)@.ppu.position() + n,
            r ==> final(self)@.ppu.position() < n,
    {
        let mut did_finish_frame = false;
        let mut i: u16 = 0;
        while i < n
            invariant
                i <= n,
                self.wf(),
                screen.canvas().len() == old(screen).canvas().len(),
                self@ == (NesModel { ppu: self@.ppu, bus: self@.bus, ..old(self)@ }),
                !did_finish_frame ==> self@.ppu.position() == old(self)@.ppu.position() + i,
                did_finish_frame ==> self@.ppu.position() < i,
                dots_run(self@.ppu, self@.bus, screen.canvas(), n - i, did_finish_frame) == dots_run(
                    old(self)@.ppu,
                    old(self)@.bus,
                    old(screen).canvas(),
                    n as int,
                    false,
                ),
            decreases n - i,
        {
            let res = self.ppu.step(screen, &mut self.bus);
            if !did_finish_frame && res {
                did_finish_frame = res;
            }
            i += 1;
        }
        did_finish_frame
    }

    /// Makes one turn of the loop, and says whether the PPU ended the
    /// frame during it and whether the CPU failed.
    fn run_turn<T: FrameBuffer>(&mut self, screen: &mut T) -> (r: (bool, bool))
        requires
            old(self).wf(),
        ensures
            final(self).wf(),
            final(screen).canvas().len() == old(screen).canvas().len(),
            (Turn { state: final(self)@, pixels: final(screen).canvas(), finished: r.0, failed: r.1 })
                == old(self)@.turn(old(screen).canvas()),
            r.1 ==> !r.0 && final(self)@.halt,
            !r.1 ==> final(self)@.halt == old(self)@.halt,
            !r.0 && !r.1 ==> final(self)@.ppu.position() > old(self)@.ppu.position(),
            r.0 ==> final(self)@.ppu.position() < 3 * 513,
    {
        proof {
            reveal(NesModel::turn);
        }
        if self.ppu.generated_interrupt() {
            self.pending_interrupt = true;
        }
        let cycles: u16 = if self.dma_read_cycle && self.bus.pending_dma() {
            self.bus.process_dma();
            DMA_CYCLES
        } else {
            match self.cpu.step(&mut self.bus, &mut self.pending_interrupt) {
                Ok(cycles) => cycles as u16,
                Err(_) => {
                    self.halt = true;
                    return (false, true);
                },
            }
        };
        let did_finish_frame = self.run_dots(screen, 3 * cycles);
        (did_finish_frame, false)
    }

    /// Runs the machine until the PPU has ended the frame, and says whether
    /// it has: the picture is then complete. A halted machine does nothing,
    /// and a failure of the CPU halts the machine.
    pub fn run_frame<T: FrameBuffer>(&mut self, screen: &mut T) -> (r: bool)
        requires
            old(self).wf(),
        ensures
            final(self).wf(),
            final(screen).canvas().len() == old(screen).canvas().len(),
            old(self)@.halt ==> !r && final(self)@ == old(self)@ && final(screen).canvas() == old(screen).canvas(),
            !old(self)@.halt ==> (Turn {
                state: final(self)@,
                pixels: final(screen).canvas(),
                finished: r,
                failed: final(self)@.halt,
            }) == old(self)@.frame(old(screen).canvas(), 89342),
            r ==> final(self)@.ppu.position() < 3 * 513,
    {
        if self.halt {
            return false;
        }
        let ghost mut fuel: nat = 89342;
        loop
            invariant
                self.wf(),
                screen.canvas().len() == old(screen).canvas().len(),
                fuel >= 89342 - self@.ppu.position(),
                fuel >= 1,
                !old(self)@.halt,
                !self@.halt,
                self@.frame(screen.canvas(), fuel) == old(self)@.frame(old(screen).canvas(), 89342),
            decreases fuel,
        {
            let (did_finish_frame, failed) = self.run_turn(screen);
            if failed {
                return false;
            }
            if did_finish_frame {
                return true;
            }
            self.dma_read_cycle = !self.dma_read_cycle;
            proof {
                fuel = (fuel - 1) as nat;
            }
        }
    }
}

} // verus!
