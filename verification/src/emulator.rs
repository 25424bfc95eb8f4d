use vstd::prelude::*;
use crate::bus::{Bus, BusState};
use crate::cpu::CPU;
use crate::cpu::semantics::{execute_opcode, fetched, service_interrupt};

verus! {

/// The most cycles one [`Emulator::step`] runs the CPU for: an opcode
/// fetch and the longest instruction with an OAM DMA, or an interrupt
/// entry.
pub const MAX_STEP_CYCLES: u32 = 522;

/// What one step of the emulator did.
#[derive(Clone, Copy, Debug)]
pub enum StepEvent {
    /// A pending NMI was serviced.
    Nmi,
    /// The IRQ line was serviced.
    Irq,
    /// An official instruction ran.
    Executed(u8),
    /// The opcode fetched is not an official instruction; nothing ran.
    Unimplemented(u8),
}

/// The CPU and, without any state of its own, one step of the CPU.
pub open spec fn cpu_step(c: CPU, b: BusState) -> (CPU, BusState, StepEvent) {
    if b.nmi {
        let (c1, b1) = service_interrupt(c, BusState { nmi: false, ..b }, 0);
        (c1, b1, StepEvent::Nmi)
    } else if c.irq && !c.registers.interrupt_disable {
        let (c1, b1) = service_interrupt(c, b, 1);
        (c1, b1, StepEvent::Irq)
    } else {
        let (op, c1, b1) = fetched(c, b);
        let (c2, b2, ok) = execute_opcode(c1, b1, op);
        (c2, b2, if ok {
            StepEvent::Executed(op)
        } else {
            StepEvent::Unimplemented(op)
        })
    }
}

/// Every bus access that the CPU step makes is one that the bus defines
/// (see [`BusState::read_ok`] and [`BusState::write_ok`]).
pub open spec fn step_defined(c: CPU, b: BusState) -> bool {
    if b.nmi {
        !service_interrupt(c, BusState { nmi: false, ..b }, 0).1.faulted
    } else if c.irq && !c.registers.interrupt_disable {
        !service_interrupt(c, b, 1).1.faulted
    } else {
        let (op, c1, b1) = fetched(c, b);
        !b1.faulted && !execute_opcode(c1, b1, op).1.faulted
    }
}

/// One step of the whole machine: a CPU step, then three PPU dots for
/// every cycle it took.
pub open spec fn machine_step(c: CPU, b: BusState) -> (CPU, BusState, StepEvent) {
    let (c1, b1, e) = cpu_step(c, b);
    (c1, b1.ppu_dots(((c1.cycles - c.cycles) * 3) as nat), e)
}

/// The emulated console: CPU and bus (with everything on it).
pub struct Emulator {
    pub cpu: CPU,
    pub bus: Bus,
}

impl Emulator {
    /// A powered-on console with an empty cartridge slot.
    pub fn new() -> (e: Emulator)
        ensures
            e.cpu == CPU::new_state(),
            e.bus@ == Bus::new_state(),
            e.bus@.inv(),
    {
        Self { cpu: CPU::new(), bus: Bus::new() }
    }

    /// Runs one step: services a pending NMI, else a raised IRQ when
    /// interrupts are enabled, else fetches and executes one opcode; then
    /// runs the PPU for the cycles that took.
    pub fn step(&mut self) -> (e: StepEvent)
        requires
            old(self).bus@.wf(),
            step_defined(old(self).cpu, old(self).bus@),
            old(self).cpu.headroom(MAX_STEP_CYCLES as int),
        ensures
            (final(self).cpu, final(self).bus@, e) == machine_step(old(self).cpu, old(self).bus@),
            final(self).bus@.wf(),
    {
        let start = self.cpu.cycles;
        let event = if self.bus.poll_nmi() {
            self.cpu.handle_interrupts(&mut self.bus, 0);
            StepEvent::Nmi
        } else if self.cpu.irq && !self.cpu.registers.interrupt_disable {
            self.cpu.handle_interrupts(&mut self.bus, 1);
            StepEvent::Irq
        } else {
            let opcode = self.cpu.fetch(&mut self.bus);
            if self.cpu.execute(opcode, &mut self.bus) {
                StepEvent::Executed(opcode)
            } else {
                StepEvent::Unimplemented(opcode)
            }
        };
        let elapsed = self.cpu.cycles - start;
        self.bus.step_ppu(elapsed);
        event
    }
}

} // verus!
