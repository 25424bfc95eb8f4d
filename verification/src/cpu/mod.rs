use vstd::prelude::*;
use crate::bits::{lemma_byte, lemma_rotate, lemma_rotate_left, lemma_word16};
use crate::bus::{Bus, BusState};
use crate::modular::{lemma_word, wadd16, wadd8, wsub16, wsub8, word};
use self::registers::{Registers, bit};
use self::semantics::{
    adc_regs, branch_target, compare_regs, fetched, ld_regs, load_operand, operand, page, read_bus,
    read_op, reg_value, rmw, rmw_input, rmw_output, rmw_result, signed_overflow, store, ticked,
    transfer, with_reg, with_regs, write_bus, ReadOp, RmwOp, branch, push, pull, stack_address,
    with_sp, brk, interrupt, jmp, jsr, rti, rts, php, plp, pha, pla, hi_byte, lo_byte, with_pc,
    effect, execute_opcode, reset, service_interrupt, interrupt_vector, index_cycle, rmw_index_cycle,
};
use self::decode::{decode, decoded, Instruction};

pub mod decode;
pub mod laws;
pub mod registers;
pub mod semantics;

verus! {

/// The most cycles an OAM DMA halts the CPU for.
pub const MAX_DMA_STALL: u32 = 514;

/// The most cycles that [`CPU::execute`] (after the opcode fetch) or
/// [`CPU::handle_interrupts`] adds to the cycle counter: seven, and an OAM
/// DMA that a write may start.
pub const MAX_INSTRUCTION_CYCLES: u32 = 521;

/// The 6502 core: its registers, the cycles it has run and the IRQ line.
pub struct CPU {
    pub registers: Registers,
    pub cycles: u32,
    pub irq: bool,
}

/// An effective address and whether computing it crossed a page.
pub struct AddrResult {
    pub address: u16,
    pub page_crossed: bool,
}

/// The 6502 addressing modes.
#[derive(Clone, Copy, Debug)]
pub enum AddressingModes {
    Immediate,
    ZeroPage,
    ZeroPageX,
    ZeroPageY,
    Absolute,
    AbsoluteX,
    AbsoluteY,
    XIndexedZeroPageIndirect,  // (Indirect, X)
    ZeroPageIndirectYPaged,  // (Indirect), Y
    Indirect,  // JMP only
    Accumulator,
    Relative,  // branches only
    NoneAddressing,
}

/// The registers a load, store or transfer can name.
#[derive(Clone, Copy, Debug)]
pub enum LoadRegisters {
    A,
    X,
    Y,
}

/// `(a & 0xFF00) == (b & 0xFF00)` says that `a` and `b` share a page.
pub proof fn lemma_same_page(a: u16, b: u16)
    ensures
        ((a & 0xFF00) == (b & 0xFF00)) == (page(a) == page(b)),
{
    assert(((a & 0xFF00) == (b & 0xFF00)) == (a / 256 == b / 256)) by (bit_vector);
}

impl CPU {
    /// Room left in the cycle counter for `n` more cycles.
    pub open spec fn headroom(&self, n: int) -> bool {
        self.cycles as int + n <= u32::MAX
    }

    /// The CPU at power-on: all registers zero, no cycles run, IRQ low.
    pub open spec fn new_state() -> CPU {
        CPU { registers: Registers::power_on(), cycles: 0, irq: false }
    }

    pub fn new() -> (c: CPU)
        ensures
            c == Self::new_state(),
    {
        CPU { registers: Registers::new(), cycles: 0, irq: false }
    }

    /// Executes one opcode (already fetched): the instruction that its
    /// cc/aaa/bbb fields encode runs, and `true` is returned; for an opcode
    /// that is not an official instruction nothing changes and `false` is
    /// returned.
    pub fn execute(&mut self, opcode: u8, bus: &mut Bus) -> (implemented: bool)
        requires
            old(bus)@.wf(),
            !execute_opcode(*old(self), old(bus)@, opcode).1.faulted,
            old(self).headroom(MAX_INSTRUCTION_CYCLES as int),
        ensures
            (*final(self), final(bus)@, implemented) == execute_opcode(*old(self), old(bus)@, opcode),
            final(bus)@.wf(),
            old(self).cycles <= final(self).cycles <= old(self).cycles + 7 + MAX_DMA_STALL,
    {
        match decode(opcode) {
            Some(ins) => {
                self.run(ins, bus);
                true
            },
            None => false,
        }
    }

    /// Runs one decoded instruction (see [`semantics::effect`]).
    pub fn run(&mut self, ins: Instruction, bus: &mut Bus)
        requires
            old(bus)@.wf(),
            !effect(*old(self), old(bus)@, ins).1.faulted,
            old(self).headroom(7 + MAX_DMA_STALL),
        ensures
            (*final(self), final(bus)@) == effect(*old(self), old(bus)@, ins),
            final(bus)@.wf(),
            old(self).cycles + 0 <= final(self).cycles <= old(self).cycles + 7 + MAX_DMA_STALL,
    {
        reveal(effect);
        match ins {
            Instruction::Brk | Instruction::Jsr | Instruction::Rti | Instruction::Rts | Instruction::Php | Instruction::Plp | Instruction::Pha | Instruction::Pla | Instruction::Jmp(..) => self.run_control(ins, bus),
            Instruction::Dey | Instruction::Tay | Instruction::Iny | Instruction::Inx | Instruction::Txa | Instruction::Tax | Instruction::Dex | Instruction::Nop | Instruction::Txs | Instruction::Tsx | Instruction::Clc | Instruction::Sec | Instruction::Cli | Instruction::Sei | Instruction::Tya | Instruction::Clv | Instruction::Cld | Instruction::Sed => self.run_implied(ins, bus),
            Instruction::Bpl | Instruction::Bmi | Instruction::Bvc | Instruction::Bvs | Instruction::Bcc | Instruction::Bcs | Instruction::Bne | Instruction::Beq => self.run_branch(ins, bus),
            Instruction::Ld(..) | Instruction::St(..) | Instruction::Ora(..) | Instruction::And(..) | Instruction::Eor(..) | Instruction::Adc(..) | Instruction::Sbc(..) | Instruction::Cmp(..) | Instruction::Cpx(..) | Instruction::Cpy(..) | Instruction::Bit(..) => self.run_read(ins, bus),
            Instruction::Asl(..) | Instruction::Lsr(..) | Instruction::Rol(..) | Instruction::Ror(..) | Instruction::Inc(..) | Instruction::Dec(..) => self.run_rmw(ins, bus),
        }
    }

    /// Stack, jump and interrupt instructions.
    fn run_control(&mut self, ins: Instruction, bus: &mut Bus)
        requires
            old(bus)@.wf(),
            !effect(*old(self), old(bus)@, ins).1.faulted,
            old(self).headroom(7),
            ins is Brk || ins is Jsr || ins is Rti || ins is Rts || ins is Php || ins is Plp || ins is Pha || ins is Pla || ins is Jmp,
        ensures
            (*final(self), final(bus)@) == effect(*old(self), old(bus)@, ins),
            final(bus)@.wf(),
            old(self).cycles + 0 <= final(self).cycles <= old(self).cycles + 7,
    {
        reveal(effect);
        match ins {
            Instruction::Brk => self.brk(bus),
            Instruction::Jsr => self.jsr(&AddressingModes::Absolute, bus),
            Instruction::Rti => self.rti(bus),
            Instruction::Rts => self.rts(bus),
            Instruction::Php => self.php(bus),
            Instruction::Plp => self.plp(bus),
            Instruction::Pha => self.pha(bus),
            Instruction::Pla => self.pla(bus),
            Instruction::Jmp(m) => self.jmp(&m, bus),
            _ => {},
        }
    }

    /// Register transfers, register increments and flag instructions.
    fn run_implied(&mut self, ins: Instruction, bus: &mut Bus)
        requires
            old(bus)@.wf(),
            !effect(*old(self), old(bus)@, ins).1.faulted,
            old(self).headroom(7),
            ins is Dey || ins is Tay || ins is Iny || ins is Inx || ins is Txa || ins is Tax || ins is Dex || ins is Nop || ins is Txs || ins is Tsx || ins is Clc || ins is Sec || ins is Cli || ins is Sei || ins is Tya || ins is Clv || ins is Cld || ins is Sed,
        ensures
            (*final(self), final(bus)@) == effect(*old(self), old(bus)@, ins),
            final(bus)@.wf(),
            final(self).cycles == old(self).cycles + 1,
    {
        reveal(effect);
        match ins {
            Instruction::Dey => self.dey(),
            Instruction::Tay => self.tay(),
            Instruction::Iny => self.iny(),
            Instruction::Inx => self.inx(),
            Instruction::Txa => self.txa(),
            Instruction::Tax => self.tax(),
            Instruction::Dex => self.dex(),
            Instruction::Nop => self.nop(),
            Instruction::Txs => self.txs(),
            Instruction::Tsx => self.tsx(),
            Instruction::Clc => self.clc(),
            Instruction::Sec => self.sec(),
            Instruction::Cli => self.cli(),
            Instruction::Sei => self.sei(),
            Instruction::Tya => self.tya(),
            Instruction::Clv => self.clv(),
            Instruction::Cld => self.cld(),
            Instruction::Sed => self.sed(),
            _ => {},
        }
    }

    /// Conditional branches.
    fn run_branch(&mut self, ins: Instruction, bus: &mut Bus)
        requires
            old(bus)@.wf(),
            !effect(*old(self), old(bus)@, ins).1.faulted,
            old(self).headroom(7),
            ins is Bpl || ins is Bmi || ins is Bvc || ins is Bvs || ins is Bcc || ins is Bcs || ins is Bne || ins is Beq,
        ensures
            (*final(self), final(bus)@) == effect(*old(self), old(bus)@, ins),
            final(bus)@.wf(),
            old(self).cycles + 1 <= final(self).cycles <= old(self).cycles + 3,
    {
        reveal(effect);
        match ins {
            Instruction::Bpl => self.bpl(bus),
            Instruction::Bmi => self.bmi(bus),
            Instruction::Bvc => self.bvc(bus),
            Instruction::Bvs => self.bvs(bus),
            Instruction::Bcc => self.bcc(bus),
            Instruction::Bcs => self.bcs(bus),
            Instruction::Bne => self.bne(bus),
            Instruction::Beq => self.beq(bus),
            _ => {},
        }
    }

    /// Loads, stores and the read instructions.
    #[verifier::rlimit(40)]
    fn run_read(&mut self, ins: Instruction, bus: &mut Bus)
        requires
            old(bus)@.wf(),
            !effect(*old(self), old(bus)@, ins).1.faulted,
            old(self).headroom(7 + MAX_DMA_STALL),
            ins is Ld || ins is St || ins is Ora || ins is And || ins is Eor || ins is Adc || ins is Sbc || ins is Cmp || ins is Cpx || ins is Cpy || ins is Bit,
        ensures
            (*final(self), final(bus)@) == effect(*old(self), old(bus)@, ins),
            final(bus)@.wf(),
            old(self).cycles + 1 <= final(self).cycles <= old(self).cycles + 6 + MAX_DMA_STALL,
    {
        reveal(effect);
        match ins {
            Instruction::Ld(m, which) => self.ld(m, which, bus),
            Instruction::St(m, which) => self.st(m, which, bus),
            Instruction::Ora(m) => self.ora(&m, bus),
            Instruction::And(m) => self.and(&m, bus),
            Instruction::Eor(m) => self.eor(&m, bus),
            Instruction::Adc(m) => self.adc(m, bus),
            Instruction::Sbc(m) => self.sbc(m, bus),
            Instruction::Cmp(m) => self.cmp(m, bus),
            Instruction::Cpx(m) => self.cpx(m, bus),
            Instruction::Cpy(m) => self.cpy(m, bus),
            Instruction::Bit(m) => self.bit(&m, bus),
            _ => {},
        }
    }

    /// Read-modify-write instructions.
    #[verifier::rlimit(40)]
    fn run_rmw(&mut self, ins: Instruction, bus: &mut Bus)
        requires
            old(bus)@.wf(),
            !effect(*old(self), old(bus)@, ins).1.faulted,
            old(self).headroom(7 + MAX_DMA_STALL),
            ins is Asl || ins is Lsr || ins is Rol || ins is Ror || ins is Inc || ins is Dec,
        ensures
            (*final(self), final(bus)@) == effect(*old(self), old(bus)@, ins),
            final(bus)@.wf(),
            old(self).cycles + 1 <= final(self).cycles <= old(self).cycles + 7 + MAX_DMA_STALL,
    {
        reveal(effect);
        match ins {
            Instruction::Asl(m) => self.asl(m, bus),
            Instruction::Lsr(m) => self.lsr(m, bus),
            Instruction::Rol(m) => self.rol(m, bus),
            Instruction::Ror(m) => self.ror(m, bus),
            Instruction::Inc(m) => self.inc(&m, bus),
            Instruction::Dec(m) => self.dec(&m, bus),
            _ => {},
        }
    }

    /// RESET (see [`semantics::reset`]).
    pub fn reset(&mut self, bus: &mut Bus)
        requires
            old(bus)@.wf(),
            !reset(*old(self), old(bus)@).1.faulted,
            old(self).headroom(2),
        ensures
            (*final(self), final(bus)@) == reset(*old(self), old(bus)@),
            final(bus)@.wf(),
            final(self).cycles == old(self).cycles + 2,
    {
        let lower = self.read_bus(bus, 0xFFFC);
        let upper = self.read_bus(bus, 0xFFFD);
        proof {
            lemma_word(lower, upper);
        }
        self.registers.set_pc(((upper as u16) << 8) | (lower as u16));
        self.registers.set_sp(0xFD);
        self.registers.interrupt_disable = true;
    }

    /// Services an interrupt: `interrupt_type` 0 is an NMI, anything else
    /// an IRQ (see [`semantics::service_interrupt`]).
    pub fn handle_interrupts(&mut self, bus: &mut Bus, interrupt_type: u8)
        requires
            old(bus)@.wf(),
            !service_interrupt(*old(self), old(bus)@, interrupt_type).1.faulted,
            old(self).headroom(MAX_INSTRUCTION_CYCLES as int),
        ensures
            (*final(self), final(bus)@) == service_interrupt(*old(self), old(bus)@, interrupt_type),
            final(bus)@.wf(),
            final(self).cycles == old(self).cycles + 7,
    {
        self.tick();
        self.tick();
        let status = (self.registers.get_status() & 0xEF) | 0x20;
        let vector: u16 = if interrupt_type == 0 {
            0xFFFA
        } else {
            0xFFFE
        };
        self.enter_interrupt(bus, status, vector);
    }

    /// Reads the next instruction byte and advances PC.
    pub fn fetch(&mut self, bus: &mut Bus) -> (r: u8)
        requires
            old(bus)@.wf(),
            !fetched(*old(self), old(bus)@).2.faulted,
            old(self).headroom(1),
        ensures
            (r, *final(self), final(bus)@) == fetched(*old(self), old(bus)@),
            final(bus)@.wf(),
            final(self).cycles == old(self).cycles + 1,
    {
        let pc = self.registers.get_pc();
        let data = self.read_bus(bus, pc);
        self.registers.pc = self.registers.pc.wrapping_add(1);
        data
    }

    fn read_bus(&mut self, bus: &mut Bus, address: u16) -> (r: u8)
        requires
            old(bus)@.wf(),
            !read_bus(*old(self), old(bus)@, address).2.faulted,
            old(self).headroom(1),
        ensures
            (r, *final(self), final(bus)@) == read_bus(*old(self), old(bus)@, address),
            final(bus)@.wf(),
            final(self).cycles == old(self).cycles + 1,
    {
        self.cycles += 1;
        bus.read(address)
    }

    fn write_bus(&mut self, bus: &mut Bus, address: u16, data: u8)
        requires
            old(bus)@.wf(),
            !write_bus(*old(self), old(bus)@, address, data).1.faulted,
            old(self).headroom(
                if address == 0x4014 {
                    1 + MAX_DMA_STALL
                } else {
                    1
                },
            ),
        ensures
            (*final(self), final(bus)@) == write_bus(*old(self), old(bus)@, address, data),
            final(bus)@.wf(),
            address != 0x4014 ==> final(self).cycles == old(self).cycles + 1,
            old(self).cycles + 1 <= final(self).cycles <= old(self).cycles + 1 + MAX_DMA_STALL,
    {
        self.cycles += 1;
        bus.write(address, data);
        if address == 0x4014 {
            let stall = 513 + self.cycles % 2;
            self.cycles += stall;
        }
    }

    /// An internal cycle.
    pub fn tick(&mut self)
        requires
            old(self).headroom(1),
        ensures
            *final(self) == ticked(*old(self)),
            final(self).cycles == old(self).cycles + 1,
    {
        self.cycles += 1;
    }

    /// The internal cycle of zero-page indexing (see
    /// [`semantics::index_cycle`]).
    fn index_tick(&mut self, mode: &AddressingModes)
        requires
            old(self).headroom(1),
        ensures
            *final(self) == index_cycle(*old(self), *mode),
            old(self).cycles <= final(self).cycles <= old(self).cycles + 1,
    {
        match mode {
            AddressingModes::ZeroPageX
            | AddressingModes::ZeroPageY
            | AddressingModes::XIndexedZeroPageIndirect => self.tick(),
            _ => {},
        }
    }

    /// The internal cycle of indexing in a read-modify-write instruction
    /// (see [`semantics::rmw_index_cycle`]).
    fn rmw_index_tick(&mut self, mode: &AddressingModes)
        requires
            old(self).headroom(1),
        ensures
            *final(self) == rmw_index_cycle(*old(self), *mode),
            old(self).cycles <= final(self).cycles <= old(self).cycles + 1,
    {
        match mode {
            AddressingModes::ZeroPageX | AddressingModes::AbsoluteX => self.tick(),
            _ => {},
        }
    }

    /// The displacement that adds a relative branch offset to PC.
    fn displacement(offset: u8) -> (d: u16)
        ensures
            forall|pc: u16| #[trigger] wadd16(pc, d) == branch_target(pc, offset),
    {
        if offset < 128 {
            offset as u16
        } else {
            let d = (offset as u16) | 0xFF00;
            assert(d == offset as u16 + 0xFF00) by (bit_vector)
                requires
                    d == (offset as u16) | 0xFF00,
                    offset >= 128,
            ;
            d
        }
    }

    /// The effective address of an addressing mode (see
    /// [`semantics::operand`]).
    pub fn get_operand_address(&mut self, mode: &AddressingModes, bus: &mut Bus) -> (r: AddrResult)
        requires
            old(bus)@.wf(),
            !operand(*old(self), old(bus)@, *mode).2.faulted,
            old(self).headroom(4),
        ensures
            (r, *final(self), final(bus)@) == operand(*old(self), old(bus)@, *mode),
            final(bus)@.wf(),
            old(self).cycles + 0 <= final(self).cycles <= old(self).cycles + 4,
    {
        match mode {
            AddressingModes::Accumulator => AddrResult { address: 0, page_crossed: false },
            AddressingModes::NoneAddressing => AddrResult { address: 0, page_crossed: false },
            AddressingModes::Immediate => {
                let addr = self.registers.pc;
                self.registers.pc = self.registers.pc.wrapping_add(1);
                AddrResult { address: addr, page_crossed: false }
            },
            AddressingModes::ZeroPage => {
                let zp = self.fetch(bus);
                AddrResult { address: zp as u16, page_crossed: false }
            },
            AddressingModes::ZeroPageX => {
                let base = self.fetch(bus);
                AddrResult {
                    address: base.wrapping_add(self.registers.get_x()) as u16,
                    page_crossed: false,
                }
            },
            AddressingModes::ZeroPageY => {
                let base = self.fetch(bus);
                AddrResult {
                    address: base.wrapping_add(self.registers.get_y()) as u16,
                    page_crossed: false,
                }
            },
            AddressingModes::Absolute => {
                let lower = self.fetch(bus);
                let upper = self.fetch(bus);
                proof {
                    lemma_word(lower, upper);
                }
                AddrResult { address: ((upper as u16) << 8) | (lower as u16), page_crossed: false }
            },
            AddressingModes::AbsoluteX => self.absolute_indexed(bus, true),
            AddressingModes::AbsoluteY => self.absolute_indexed(bus, false),
            AddressingModes::XIndexedZeroPageIndirect => self.indexed_indirect(bus),
            AddressingModes::ZeroPageIndirectYPaged => self.indirect_indexed(bus),
            AddressingModes::Indirect => self.indirect(bus),
            AddressingModes::Relative => self.relative(bus),
        }
    }

    /// Absolute,X (`use_x`) or absolute,Y addressing.
    fn absolute_indexed(&mut self, bus: &mut Bus, use_x: bool) -> (r: AddrResult)
        requires
            old(bus)@.wf(),
            !operand(
                *old(self),
                old(bus)@,
                if use_x {
                    AddressingModes::AbsoluteX
                } else {
                    AddressingModes::AbsoluteY
                },
            ).2.faulted,
            old(self).headroom(4),
        ensures
            (r, *final(self), final(bus)@) == operand(
                *old(self),
                old(bus)@,
                if use_x {
                    AddressingModes::AbsoluteX
                } else {
                    AddressingModes::AbsoluteY
                },
            ),
            final(bus)@.wf(),
            final(self).cycles == old(self).cycles + 2,
    {
        let index = if use_x {
            self.registers.get_x()
        } else {
            self.registers.get_y()
        };
        let lower = self.fetch(bus);
        let upper = self.fetch(bus);
        proof {
            lemma_word(lower, upper);
        }
        let base = ((upper as u16) << 8) | (lower as u16);
        let addr = base.wrapping_add(index as u16);
        proof {
            lemma_same_page(base, addr);
        }
        AddrResult { address: addr, page_crossed: (base & 0xFF00) != (addr & 0xFF00) }
    }

    /// (zp,X) addressing.
    fn indexed_indirect(&mut self, bus: &mut Bus) -> (r: AddrResult)
        requires
            old(bus)@.wf(),
            !operand(
                *old(self),
                old(bus)@,
                AddressingModes::XIndexedZeroPageIndirect,
            ).2.faulted,
            old(self).headroom(4),
        ensures
            (r, *final(self), final(bus)@) == operand(
                *old(self),
                old(bus)@,
                AddressingModes::XIndexedZeroPageIndirect,
            ),
            final(bus)@.wf(),
            final(self).cycles == old(self).cycles + 3,
    {
        let base = self.fetch(bus);
        let ptr = base.wrapping_add(self.registers.get_x());
        let lower = self.read_bus(bus, ptr as u16);
        let upper = self.read_bus(bus, ptr.wrapping_add(1) as u16);
        proof {
            lemma_word(lower, upper);
        }
        AddrResult { address: ((upper as u16) << 8) | (lower as u16), page_crossed: false }
    }

    /// (zp),Y addressing.
    fn indirect_indexed(&mut self, bus: &mut Bus) -> (r: AddrResult)
        requires
            old(bus)@.wf(),
            !operand(
                *old(self),
                old(bus)@,
                AddressingModes::ZeroPageIndirectYPaged,
            ).2.faulted,
            old(self).headroom(4),
        ensures
            (r, *final(self), final(bus)@) == operand(
                *old(self),
                old(bus)@,
                AddressingModes::ZeroPageIndirectYPaged,
            ),
            final(bus)@.wf(),
            final(self).cycles == old(self).cycles + 3,
    {
        let y = self.registers.get_y();
        let ptr = self.fetch(bus);
        let lower = self.read_bus(bus, ptr as u16);
        let upper = self.read_bus(bus, ptr.wrapping_add(1) as u16);
        proof {
            lemma_word(lower, upper);
        }
        let base = ((upper as u16) << 8) | (lower as u16);
        let addr = base.wrapping_add(y as u16);
        proof {
            lemma_same_page(base, addr);
        }
        AddrResult { address: addr, page_crossed: (base & 0xFF00) != (addr & 0xFF00) }
    }

    /// (abs) addressing of JMP, with the 6502's page-wrap of the pointer.
    fn indirect(&mut self, bus: &mut Bus) -> (r: AddrResult)
        requires
            old(bus)@.wf(),
            !operand(*old(self), old(bus)@, AddressingModes::Indirect).2.faulted,
            old(self).headroom(4),
        ensures
            (r, *final(self), final(bus)@) == operand(*old(self), old(bus)@, AddressingModes::Indirect),
            final(bus)@.wf(),
            final(self).cycles == old(self).cycles + 4,
    {
        let lower = self.fetch(bus);
        let upper = self.fetch(bus);
        proof {
            lemma_word(lower, upper);
        }
        let ptr = ((upper as u16) << 8) | (lower as u16);
        let lower_target = self.read_bus(bus, ptr);
        proof {
            lemma_word16(ptr);
        }
        let upper_target = if (ptr & 0x00FF) == 0x00FF {
            self.read_bus(bus, ptr & 0xFF00)
        } else {
            self.read_bus(bus, ptr + 1)
        };
        proof {
            lemma_word(lower_target, upper_target);
        }
        AddrResult { address: ((upper_target as u16) << 8) | (lower_target as u16), page_crossed: false }
    }

    /// Relative addressing: PC plus the signed offset byte.
    fn relative(&mut self, bus: &mut Bus) -> (r: AddrResult)
        requires
            old(bus)@.wf(),
            !operand(*old(self), old(bus)@, AddressingModes::Relative).2.faulted,
            old(self).headroom(4),
        ensures
            (r, *final(self), final(bus)@) == operand(*old(self), old(bus)@, AddressingModes::Relative),
            final(bus)@.wf(),
            final(self).cycles == old(self).cycles + 1,
    {
        let offset = self.fetch(bus);
        let base = self.registers.pc;
        let d = Self::displacement(offset);
        let addr = base.wrapping_add(d);
        assert(wadd16(base, d) == branch_target(base, offset));
        proof {
            lemma_same_page(base, addr);
        }
        AddrResult { address: addr, page_crossed: (base & 0xFF00) != (addr & 0xFF00) }
    }

    /// Reads the operand of a read instruction, with the page-crossing
    /// penalty.
    fn read_operand(&mut self, mode: &AddressingModes, bus: &mut Bus) -> (r: u8)
        requires
            old(bus)@.wf(),
            !load_operand(*old(self), old(bus)@, *mode).2.faulted,
            old(self).headroom(6),
        ensures
            (r, *final(self), final(bus)@) == load_operand(*old(self), old(bus)@, *mode),
            final(bus)@.wf(),
            old(self).cycles + 1 <= final(self).cycles <= old(self).cycles + 6,
    {
        self.index_tick(mode);
        let result = self.get_operand_address(mode, bus);
        let data = self.read_bus(bus, result.address);
        if result.page_crossed {
            self.tick();
        }
        data
    }

    fn ld(&mut self, addressing_mode: AddressingModes, register: LoadRegisters, bus: &mut Bus)
        requires
            old(bus)@.wf(),
            !read_op(
                *old(self),
                old(bus)@,
                addressing_mode,
                ReadOp::Ld(register),
            ).1.faulted,
            old(self).headroom(6),
        ensures
            (*final(self), final(bus)@) == read_op(
                *old(self),
                old(bus)@,
                addressing_mode,
                ReadOp::Ld(register),
            ),
            final(bus)@.wf(),
            old(self).cycles + 1 <= final(self).cycles <= old(self).cycles + 6,
    {
        let data = self.read_operand(&addressing_mode, bus);
        self.load_into_register(register, data);
        self.set_zero(data);
        self.set_negative(data);
    }

    fn and(&mut self, addressing_mode: &AddressingModes, bus: &mut Bus)
        requires
            old(bus)@.wf(),
            !read_op(*old(self), old(bus)@, *addressing_mode, ReadOp::And).1.faulted,
            old(self).headroom(6),
        ensures
            (*final(self), final(bus)@) == read_op(*old(self), old(bus)@, *addressing_mode, ReadOp::And),
            final(bus)@.wf(),
            old(self).cycles + 1 <= final(self).cycles <= old(self).cycles + 6,
    {
        let memory = self.read_operand(addressing_mode, bus);
        let a = self.registers.get_a() & memory;
        self.set_zero(a);
        self.set_negative(a);
        self.registers.set_a(a);
    }

    fn eor(&mut self, addressing_mode: &AddressingModes, bus: &mut Bus)
        requires
            old(bus)@.wf(),
            !read_op(*old(self), old(bus)@, *addressing_mode, ReadOp::Eor).1.faulted,
            old(self).headroom(6),
        ensures
            (*final(self), final(bus)@) == read_op(*old(self), old(bus)@, *addressing_mode, ReadOp::Eor),
            final(bus)@.wf(),
            old(self).cycles + 1 <= final(self).cycles <= old(self).cycles + 6,
    {
        let memory = self.read_operand(addressing_mode, bus);
        let xor = self.registers.get_a() ^ memory;
        self.set_negative(xor);
        self.set_zero(xor);
        self.registers.set_a(xor);
    }

    fn ora(&mut self, addressing_mode: &AddressingModes, bus: &mut Bus)
        requires
            old(bus)@.wf(),
            !read_op(*old(self), old(bus)@, *addressing_mode, ReadOp::Ora).1.faulted,
            old(self).headroom(6),
        ensures
            (*final(self), final(bus)@) == read_op(*old(self), old(bus)@, *addressing_mode, ReadOp::Ora),
            final(bus)@.wf(),
            old(self).cycles + 1 <= final(self).cycles <= old(self).cycles + 6,
    {
        let memory = self.read_operand(addressing_mode, bus);
        let or = self.registers.get_a() | memory;
        self.set_negative(or);
        self.set_zero(or);
        self.registers.set_a(or);
    }

    fn bit(&mut self, addressing_mode: &AddressingModes, bus: &mut Bus)
        requires
            old(bus)@.wf(),
            !read_op(*old(self), old(bus)@, *addressing_mode, ReadOp::Bit).1.faulted,
            old(self).headroom(6),
        ensures
            (*final(self), final(bus)@) == read_op(*old(self), old(bus)@, *addressing_mode, ReadOp::Bit),
            final(bus)@.wf(),
            old(self).cycles + 1 <= final(self).cycles <= old(self).cycles + 6,
    {
        let memory = self.read_operand(addressing_mode, bus);
        let and_result = self.registers.get_a() & memory;
        self.set_negative(memory);
        self.registers.overflow = (memory & 0x40) != 0;
        self.set_zero(and_result);
    }

    /// A + `value` + C into A, with C, V, Z and N.
    fn add_with_carry(&mut self, value_to_add: u8)
        ensures
            *final(self) == with_regs(*old(self), adc_regs(old(self).registers, value_to_add)),
    {
        let old_a = self.registers.get_a();
        let carry_in: u16 = if self.registers.carry {
            1
        } else {
            0
        };
        let result_16 = (old_a as u16) + (value_to_add as u16) + carry_in;
        let new_a = result_16 as u8;
        assert(new_a == result_16 % 256) by (bit_vector)
            requires
                new_a == result_16 as u8,
        ;
        assert((((old_a ^ new_a) & (value_to_add ^ new_a) & 0x80) != 0) == signed_overflow(
            old_a,
            value_to_add,
            new_a,
        )) by (bit_vector);
        self.registers.carry = result_16 > 0xFF;
        self.registers.overflow = ((old_a ^ new_a) & (value_to_add ^ new_a) & 0x80) != 0;
        self.set_zero(new_a);
        self.set_negative(new_a);
        self.registers.set_a(new_a);
    }

    fn sbc(&mut self, addressing_mode: AddressingModes, bus: &mut Bus)
        requires
            old(bus)@.wf(),
            !read_op(*old(self), old(bus)@, addressing_mode, ReadOp::Sbc).1.faulted,
            old(self).headroom(6),
        ensures
            (*final(self), final(bus)@) == read_op(*old(self), old(bus)@, addressing_mode, ReadOp::Sbc),
            final(bus)@.wf(),
            old(self).cycles + 1 <= final(self).cycles <= old(self).cycles + 6,
    {
        let memory_value = self.read_operand(&addressing_mode, bus);
        let value_to_add = memory_value ^ 0xFF;
        proof {
            lemma_byte(memory_value);
        }
        self.add_with_carry(value_to_add);
    }

    fn adc(&mut self, addressing_mode: AddressingModes, bus: &mut Bus)
        requires
            old(bus)@.wf(),
            !read_op(*old(self), old(bus)@, addressing_mode, ReadOp::Adc).1.faulted,
            old(self).headroom(6),
        ensures
            (*final(self), final(bus)@) == read_op(*old(self), old(bus)@, addressing_mode, ReadOp::Adc),
            final(bus)@.wf(),
            old(self).cycles + 1 <= final(self).cycles <= old(self).cycles + 6,
    {
        let memory_value = self.read_operand(&addressing_mode, bus);
        self.add_with_carry(memory_value);
    }

    fn execute_compare(&mut self, register_value: u8, memory_value: u8)
        ensures
            *final(self) == with_regs(
                *old(self),
                compare_regs(old(self).registers, register_value, memory_value),
            ),
    {
        let difference = register_value.wrapping_sub(memory_value);
        self.set_zero(difference);
        self.set_negative(difference);
        self.registers.carry = register_value >= memory_value;
    }

    fn cmp(&mut self, addressing_mode: AddressingModes, bus: &mut Bus)
        requires
            old(bus)@.wf(),
            !read_op(*old(self), old(bus)@, addressing_mode, ReadOp::Cmp).1.faulted,
            old(self).headroom(6),
        ensures
            (*final(self), final(bus)@) == read_op(*old(self), old(bus)@, addressing_mode, ReadOp::Cmp),
            final(bus)@.wf(),
            old(self).cycles + 1 <= final(self).cycles <= old(self).cycles + 6,
    {
        let memory = self.read_operand(&addressing_mode, bus);
        let a = self.registers.get_a();
        self.execute_compare(a, memory);
    }

    fn cpx(&mut self, addressing_mode: AddressingModes, bus: &mut Bus)
        requires
            old(bus)@.wf(),
            !read_op(*old(self), old(bus)@, addressing_mode, ReadOp::Cpx).1.faulted,
            old(self).headroom(6),
        ensures
            (*final(self), final(bus)@) == read_op(*old(self), old(bus)@, addressing_mode, ReadOp::Cpx),
            final(bus)@.wf(),
            old(self).cycles + 1 <= final(self).cycles <= old(self).cycles + 6,
    {
        let memory = self.read_operand(&addressing_mode, bus);
        let x = self.registers.get_x();
        self.execute_compare(x, memory);
    }

    fn cpy(&mut self, addressing_mode: AddressingModes, bus: &mut Bus)
        requires
            old(bus)@.wf(),
            !read_op(*old(self), old(bus)@, addressing_mode, ReadOp::Cpy).1.faulted,
            old(self).headroom(6),
        ensures
            (*final(self), final(bus)@) == read_op(*old(self), old(bus)@, addressing_mode, ReadOp::Cpy),
            final(bus)@.wf(),
            old(self).cycles + 1 <= final(self).cycles <= old(self).cycles + 6,
    {
        let memory = self.read_operand(&addressing_mode, bus);
        let y = self.registers.get_y();
        self.execute_compare(y, memory);
    }

    // ------------------------------------------------------------------
    // read-modify-write instructions
    // ------------------------------------------------------------------
    fn get_bitwise_values(&mut self, addressing_mode: &AddressingModes, address: u16, bus: &mut Bus) -> (r: u8)
        requires
            old(bus)@.wf(),
            !rmw_input(*old(self), old(bus)@, *addressing_mode, address).2.faulted,
            old(self).headroom(2),
        ensures
            (r, *final(self), final(bus)@) == rmw_input(*old(self), old(bus)@, *addressing_mode, address),
            final(bus)@.wf(),
            old(self).cycles + 0 <= final(self).cycles <= old(self).cycles + 2,
    {
        match addressing_mode {
            AddressingModes::Accumulator => self.registers.get_a(),
            _ => {
                let val = self.read_bus(bus, address);
                self.tick();
                val
            },
        }
    }

    fn set_bitwise(&mut self, addressing_mode: &AddressingModes, address: u16, value: u8, bus: &mut Bus)
        requires
            old(bus)@.wf(),
            !rmw_output(*old(self), old(bus)@, *addressing_mode, address, value).1.faulted,
            old(self).headroom(1 + MAX_DMA_STALL),
        ensures
            (*final(self), final(bus)@) == rmw_output(*old(self), old(bus)@, *addressing_mode, address, value),
            final(bus)@.wf(),
            old(self).cycles + 1 <= final(self).cycles <= old(self).cycles + 1 + MAX_DMA_STALL,
    {
        self.set_zero(value);
        self.set_negative(value);
        match addressing_mode {
            AddressingModes::Accumulator => {
                self.registers.set_a(value);
                self.tick();
            },
            _ => {
                self.write_bus(bus, address, value);
            },
        }
    }

    #[verifier::rlimit(30)]
    fn dec(&mut self, addressing_mode: &AddressingModes, bus: &mut Bus)
        requires
            old(bus)@.wf(),
            !rmw(*old(self), old(bus)@, *addressing_mode, RmwOp::Dec).1.faulted,
            old(self).headroom(7 + MAX_DMA_STALL),
        ensures
            (*final(self), final(bus)@) == rmw(*old(self), old(bus)@, *addressing_mode, RmwOp::Dec),
            final(bus)@.wf(),
            old(self).cycles + 1 <= final(self).cycles <= old(self).cycles + 7 + MAX_DMA_STALL,
    {
        self.rmw_index_tick(addressing_mode);
        let result = self.get_operand_address(addressing_mode, bus);
        let mut memory = self.get_bitwise_values(addressing_mode, result.address, bus);
        memory = memory.wrapping_sub(1);
        self.set_bitwise(&addressing_mode, result.address, memory, bus);
    }

    #[verifier::rlimit(30)]
    fn inc(&mut self, addressing_mode: &AddressingModes, bus: &mut Bus)
        requires
            old(bus)@.wf(),
            !rmw(*old(self), old(bus)@, *addressing_mode, RmwOp::Inc).1.faulted,
            old(self).headroom(7 + MAX_DMA_STALL),
        ensures
            (*final(self), final(bus)@) == rmw(*old(self), old(bus)@, *addressing_mode, RmwOp::Inc),
            final(bus)@.wf(),
            old(self).cycles + 1 <= final(self).cycles <= old(self).cycles + 7 + MAX_DMA_STALL,
    {
        self.rmw_index_tick(addressing_mode);
        let result = self.get_operand_address(addressing_mode, bus);
        let mut memory = self.get_bitwise_values(addressing_mode, result.address, bus);
        memory = memory.wrapping_add(1);
        self.set_bitwise(&addressing_mode, result.address, memory, bus);
    }

    #[verifier::rlimit(30)]
    fn asl(&mut self, addressing_mode: AddressingModes, bus: &mut Bus)
        requires
            old(bus)@.wf(),
            !rmw(*old(self), old(bus)@, addressing_mode, RmwOp::Asl).1.faulted,
            old(self).headroom(7 + MAX_DMA_STALL),
        ensures
            (*final(self), final(bus)@) == rmw(*old(self), old(bus)@, addressing_mode, RmwOp::Asl),
            final(bus)@.wf(),
            old(self).cycles + 1 <= final(self).cycles <= old(self).cycles + 7 + MAX_DMA_STALL,
    {
        self.rmw_index_tick(&addressing_mode);
        let result = self.get_operand_address(&addressing_mode, bus);
        let mut value = self.get_bitwise_values(&addressing_mode, result.address, bus);
        let v = value;
        proof {
            lemma_rotate_left(v, 0);
        }
        self.registers.carry = (value & 0x80) != 0;
        value <<= 1;
        self.set_bitwise(&addressing_mode, result.address, value, bus);
    }

    #[verifier::rlimit(30)]
    fn lsr(&mut self, addressing_mode: AddressingModes, bus: &mut Bus)
        requires
            old(bus)@.wf(),
            !rmw(*old(self), old(bus)@, addressing_mode, RmwOp::Lsr).1.faulted,
            old(self).headroom(7 + MAX_DMA_STALL),
        ensures
            (*final(self), final(bus)@) == rmw(*old(self), old(bus)@, addressing_mode, RmwOp::Lsr),
            final(bus)@.wf(),
            old(self).cycles + 1 <= final(self).cycles <= old(self).cycles + 7 + MAX_DMA_STALL,
    {
        self.rmw_index_tick(&addressing_mode);
        let result = self.get_operand_address(&addressing_mode, bus);
        let mut value = self.get_bitwise_values(&addressing_mode, result.address, bus);
        let v = value;
        proof {
            lemma_byte(v);
        }
        self.registers.carry = (value & 0x01) != 0;
        value >>= 1;
        self.set_bitwise(&addressing_mode, result.address, value, bus);
    }

    #[verifier::rlimit(30)]
    fn rol(&mut self, addressing_mode: AddressingModes, bus: &mut Bus)
        requires
            old(bus)@.wf(),
            !rmw(*old(self), old(bus)@, addressing_mode, RmwOp::Rol).1.faulted,
            old(self).headroom(7 + MAX_DMA_STALL),
        ensures
            (*final(self), final(bus)@) == rmw(*old(self), old(bus)@, addressing_mode, RmwOp::Rol),
            final(bus)@.wf(),
            old(self).cycles + 1 <= final(self).cycles <= old(self).cycles + 7 + MAX_DMA_STALL,
    {
        self.rmw_index_tick(&addressing_mode);
        let result = self.get_operand_address(&addressing_mode, bus);
        let mut value = self.get_bitwise_values(&addressing_mode, result.address, bus);
        let old_carry: u8 = if self.registers.carry {
            1
        } else {
            0
        };
        let v = value;
        proof {
            lemma_rotate_left(v, old_carry);
        }
        self.registers.carry = (value & 0x80) != 0;
        value <<= 1;
        value |= old_carry;
        self.set_bitwise(&addressing_mode, result.address, value, bus);
    }

    #[verifier::rlimit(30)]
    fn ror(&mut self, addressing_mode: AddressingModes, bus: &mut Bus)
        requires
            old(bus)@.wf(),
            !rmw(*old(self), old(bus)@, addressing_mode, RmwOp::Ror).1.faulted,
            old(self).headroom(7 + MAX_DMA_STALL),
        ensures
            (*final(self), final(bus)@) == rmw(*old(self), old(bus)@, addressing_mode, RmwOp::Ror),
            final(bus)@.wf(),
            old(self).cycles + 1 <= final(self).cycles <= old(self).cycles + 7 + MAX_DMA_STALL,
    {
        self.rmw_index_tick(&addressing_mode);
        let result = self.get_operand_address(&addressing_mode, bus);
        let mut value = self.get_bitwise_values(&addressing_mode, result.address, bus);
        let old_carry: u8 = if self.registers.carry {
            1
        } else {
            0
        };
        let v = value;
        proof {
            lemma_byte(v);
            lemma_rotate(v, old_carry);
        }
        self.registers.carry = (value & 0x01) != 0;
        value >>= 1;
        value |= old_carry << 7;
        self.set_bitwise(&addressing_mode, result.address, value, bus);
    }

    // ------------------------------------------------------------------
    // stores, transfers, increments of registers
    // ------------------------------------------------------------------
    fn st(&mut self, addressing_mode: AddressingModes, register: LoadRegisters, bus: &mut Bus)
        requires
            old(bus)@.wf(),
            !store(*old(self), old(bus)@, addressing_mode, register).1.faulted,
            old(self).headroom(6 + MAX_DMA_STALL),
        ensures
            (*final(self), final(bus)@) == store(*old(self), old(bus)@, addressing_mode, register),
            final(bus)@.wf(),
            old(self).cycles + 1 <= final(self).cycles <= old(self).cycles + 6 + MAX_DMA_STALL,
    {
        let data = self.get_register_data(register);
        match addressing_mode {
            AddressingModes::AbsoluteX
            | AddressingModes::AbsoluteY
            | AddressingModes::ZeroPageIndirectYPaged => {
                self.tick();
            },
            _ => self.index_tick(&addressing_mode),
        }
        let address = self.get_operand_address(&addressing_mode, bus);
        self.write_bus(bus, address.address, data);
    }

    fn set_transfer_inc(&mut self, register: LoadRegisters, value: u8)
        requires
            old(self).headroom(1),
        ensures
            *final(self) == transfer(*old(self), register, value),
            final(self).cycles == old(self).cycles + 1,
    {
        self.set_zero(value);
        self.set_negative(value);
        self.load_into_register(register, value);
        self.tick();
    }

    fn dex(&mut self)
        requires
            old(self).headroom(1),
        ensures
            *final(self) == transfer(*old(self), LoadRegisters::X, wsub8(old(self).registers.x, 1)),
            final(self).cycles == old(self).cycles + 1,
    {
        let x = self.registers.get_x().wrapping_sub(1);
        self.set_transfer_inc(LoadRegisters::X, x);
    }

    fn dey(&mut self)
        requires
            old(self).headroom(1),
        ensures
            *final(self) == transfer(*old(self), LoadRegisters::Y, wsub8(old(self).registers.y, 1)),
            final(self).cycles == old(self).cycles + 1,
    {
        let y = self.registers.get_y().wrapping_sub(1);
        self.set_transfer_inc(LoadRegisters::Y, y);
    }

    fn inx(&mut self)
        requires
            old(self).headroom(1),
        ensures
            *final(self) == transfer(*old(self), LoadRegisters::X, wadd8(old(self).registers.x, 1)),
            final(self).cycles == old(self).cycles + 1,
    {
        let x = self.registers.get_x().wrapping_add(1);
        self.set_transfer_inc(LoadRegisters::X, x);
    }

    fn iny(&mut self)
        requires
            old(self).headroom(1),
        ensures
            *final(self) == transfer(*old(self), LoadRegisters::Y, wadd8(old(self).registers.y, 1)),
            final(self).cycles == old(self).cycles + 1,
    {
        let y = self.registers.get_y().wrapping_add(1);
        self.set_transfer_inc(LoadRegisters::Y, y);
    }

    fn tax(&mut self)
        requires
            old(self).headroom(1),
        ensures
            *final(self) == transfer(*old(self), LoadRegisters::X, old(self).registers.a),
            final(self).cycles == old(self).cycles + 1,
    {
        let a = self.registers.get_a();
        self.set_transfer_inc(LoadRegisters::X, a);
    }

    fn tay(&mut self)
        requires
            old(self).headroom(1),
        ensures
            *final(self) == transfer(*old(self), LoadRegisters::Y, old(self).registers.a),
            final(self).cycles == old(self).cycles + 1,
    {
        let a = self.registers.get_a();
        self.set_transfer_inc(LoadRegisters::Y, a);
    }

    fn tsx(&mut self)
        requires
            old(self).headroom(1),
        ensures
            *final(self) == transfer(*old(self), LoadRegisters::X, old(self).registers.sp),
            final(self).cycles == old(self).cycles + 1,
    {
        let sp = self.registers.get_sp();
        self.set_transfer_inc(LoadRegisters::X, sp);
    }

    fn txa(&mut self)
        requires
            old(self).headroom(1),
        ensures
            *final(self) == transfer(*old(self), LoadRegisters::A, old(self).registers.x),
            final(self).cycles == old(self).cycles + 1,
    {
        let x = self.registers.get_x();
        self.set_transfer_inc(LoadRegisters::A, x);
    }

    fn txs(&mut self)
        requires
            old(self).headroom(1),
        ensures
            *final(self) == ticked(
                with_regs(*old(self), Registers { sp: old(self).registers.x, ..old(self).registers }),
            ),
            final(self).cycles == old(self).cycles + 1,
    {
        let x = self.registers.get_x();
        self.registers.set_sp(x);
        self.tick();
    }

    fn tya(&mut self)
        requires
            old(self).headroom(1),
        ensures
            *final(self) == transfer(*old(self), LoadRegisters::A, old(self).registers.y),
            final(self).cycles == old(self).cycles + 1,
    {
        let y = self.registers.get_y();
        self.set_transfer_inc(LoadRegisters::A, y);
    }

    // ------------------------------------------------------------------
    // flag instructions
    // ------------------------------------------------------------------
    fn clc(&mut self)
        requires
            old(self).headroom(1),
        ensures
            *final(self) == ticked(
                with_regs(*old(self), Registers { carry: false, ..old(self).registers }),
            ),
    {
        self.registers.carry = false;
        self.tick();
    }

    fn cld(&mut self)
        requires
            old(self).headroom(1),
        ensures
            *final(self) == ticked(
                with_regs(*old(self), Registers { decimal: false, ..old(self).registers }),
            ),
    {
        self.registers.decimal = false;
        self.tick();
    }

    fn cli(&mut self)
        requires
            old(self).headroom(1),
        ensures
            *final(self) == ticked(
                with_regs(*old(self), Registers { interrupt_disable: false, ..old(self).registers }),
            ),
    {
        self.registers.interrupt_disable = false;
        self.tick();
    }

    fn clv(&mut self)
        requires
            old(self).headroom(1),
        ensures
            *final(self) == ticked(
                with_regs(*old(self), Registers { overflow: false, ..old(self).registers }),
            ),
    {
        self.registers.overflow = false;
        self.tick();
    }

    fn sec(&mut self)
        requires
            old(self).headroom(1),
        ensures
            *final(self) == ticked(
                with_regs(*old(self), Registers { carry: true, ..old(self).registers }),
            ),
    {
        self.registers.carry = true;
        self.tick();
    }

    fn sed(&mut self)
        requires
            old(self).headroom(1),
        ensures
            *final(self) == ticked(
                with_regs(*old(self), Registers { decimal: true, ..old(self).registers }),
            ),
    {
        self.registers.decimal = true;
        self.tick();
    }

    fn sei(&mut self)
        requires
            old(self).headroom(1),
        ensures
            *final(self) == ticked(
                with_regs(*old(self), Registers { interrupt_disable: true, ..old(self).registers }),
            ),
    {
        self.registers.interrupt_disable = true;
        self.tick();
    }

    fn nop(&mut self)
        requires
            old(self).headroom(1),
        ensures
            *final(self) == ticked(*old(self)),
    {
        self.tick();
    }

    // ------------------------------------------------------------------
    // branches
    // ------------------------------------------------------------------
    fn execute_branch(&mut self, should_branch: bool, bus: &mut Bus)
        requires
            old(bus)@.wf(),
            !branch(*old(self), old(bus)@, should_branch).1.faulted,
            old(self).headroom(3),
        ensures
            (*final(self), final(bus)@) == branch(*old(self), old(bus)@, should_branch),
            final(bus)@.wf(),
            old(self).cycles + 1 <= final(self).cycles <= old(self).cycles + 3,
    {
        let offset = self.fetch(bus);
        if should_branch {
            self.tick();
            let old_pc = self.registers.pc;
            let d = Self::displacement(offset);
            let new_pc = old_pc.wrapping_add(d);
            assert(wadd16(old_pc, d) == branch_target(old_pc, offset));
            proof {
                lemma_same_page(old_pc, new_pc);
            }
            self.registers.pc = new_pc;
            if (old_pc & 0xFF00) != (new_pc & 0xFF00) {
                self.tick();
            }
        }
    }

    fn bcc(&mut self, bus: &mut Bus)
        requires
            old(bus)@.wf(),
            !branch(*old(self), old(bus)@, !old(self).registers.carry).1.faulted,
            old(self).headroom(3),
        ensures
            (*final(self), final(bus)@) == branch(*old(self), old(bus)@, !old(self).registers.carry),
            final(bus)@.wf(),
            old(self).cycles + 1 <= final(self).cycles <= old(self).cycles + 3,
    {
        self.execute_branch(!self.registers.carry, bus);
    }

    fn bcs(&mut self, bus: &mut Bus)
        requires
            old(bus)@.wf(),
            !branch(*old(self), old(bus)@, old(self).registers.carry).1.faulted,
            old(self).headroom(3),
        ensures
            (*final(self), final(bus)@) == branch(*old(self), old(bus)@, old(self).registers.carry),
            final(bus)@.wf(),
            old(self).cycles + 1 <= final(self).cycles <= old(self).cycles + 3,
    {
        self.execute_branch(self.registers.carry, bus);
    }

    fn beq(&mut self, bus: &mut Bus)
        requires
            old(bus)@.wf(),
            !branch(*old(self), old(bus)@, old(self).registers.zero).1.faulted,
            old(self).headroom(3),
        ensures
            (*final(self), final(bus)@) == branch(*old(self), old(bus)@, old(self).registers.zero),
            final(bus)@.wf(),
            old(self).cycles + 1 <= final(self).cycles <= old(self).cycles + 3,
    {
        self.execute_branch(self.registers.zero, bus);
    }

    fn bmi(&mut self, bus: &mut Bus)
        requires
            old(bus)@.wf(),
            !branch(*old(self), old(bus)@, old(self).registers.negative).1.faulted,
            old(self).headroom(3),
        ensures
            (*final(self), final(bus)@) == branch(*old(self), old(bus)@, old(self).registers.negative),
            final(bus)@.wf(),
            old(self).cycles + 1 <= final(self).cycles <= old(self).cycles + 3,
    {
        self.execute_branch(self.registers.negative, bus);
    }

    fn bne(&mut self, bus: &mut Bus)
        requires
            old(bus)@.wf(),
            !branch(*old(self), old(bus)@, !old(self).registers.zero).1.faulted,
            old(self).headroom(3),
        ensures
            (*final(self), final(bus)@) == branch(*old(self), old(bus)@, !old(self).registers.zero),
            final(bus)@.wf(),
            old(self).cycles + 1 <= final(self).cycles <= old(self).cycles + 3,
    {
        self.execute_branch(!self.registers.zero, bus);
    }

    fn bpl(&mut self, bus: &mut Bus)
        requires
            old(bus)@.wf(),
            !branch(*old(self), old(bus)@, !old(self).registers.negative).1.faulted,
            old(self).headroom(3),
        ensures
            (*final(self), final(bus)@) == branch(*old(self), old(bus)@, !old(self).registers.negative),
            final(bus)@.wf(),
            old(self).cycles + 1 <= final(self).cycles <= old(self).cycles + 3,
    {
        self.execute_branch(!self.registers.negative, bus);
    }

    fn bvc(&mut self, bus: &mut Bus)
        requires
            old(bus)@.wf(),
            !branch(*old(self), old(bus)@, !old(self).registers.overflow).1.faulted,
            old(self).headroom(3),
        ensures
            (*final(self), final(bus)@) == branch(*old(self), old(bus)@, !old(self).registers.overflow),
            final(bus)@.wf(),
            old(self).cycles + 1 <= final(self).cycles <= old(self).cycles + 3,
    {
        self.execute_branch(!self.registers.overflow, bus);
    }

    fn bvs(&mut self, bus: &mut Bus)
        requires
            old(bus)@.wf(),
            !branch(*old(self), old(bus)@, old(self).registers.overflow).1.faulted,
            old(self).headroom(3),
        ensures
            (*final(self), final(bus)@) == branch(*old(self), old(bus)@, old(self).registers.overflow),
            final(bus)@.wf(),
            old(self).cycles + 1 <= final(self).cycles <= old(self).cycles + 3,
    {
        self.execute_branch(self.registers.overflow, bus);
    }

    // ------------------------------------------------------------------
    // stack
    // ------------------------------------------------------------------
    fn push_stack(&mut self, bus: &mut Bus, data: u8)
        requires
            old(bus)@.wf(),
            !push(*old(self), old(bus)@, data).1.faulted,
            old(self).headroom(1),
        ensures
            (*final(self), final(bus)@) == push(*old(self), old(bus)@, data),
            final(bus)@.wf(),
            final(self).cycles == old(self).cycles + 1,
    {
        let sp = self.registers.get_sp();
        let memory_address = 0x0100 + (sp as u16);
        self.write_bus(bus, memory_address, data);
        self.registers.set_sp(sp.wrapping_sub(1));
    }

    fn pop_stack(&mut self, bus: &mut Bus) -> (r: u8)
        requires
            old(bus)@.wf(),
            !pull(*old(self), old(bus)@).2.faulted,
            old(self).headroom(1),
        ensures
            (r, *final(self), final(bus)@) == pull(*old(self), old(bus)@),
            final(bus)@.wf(),
            final(self).cycles == old(self).cycles + 1,
    {
        let sp = self.registers.get_sp().wrapping_add(1);
        self.registers.set_sp(sp);
        let stack_address = 0x0100 + (sp as u16);
        self.read_bus(bus, stack_address)
    }

    fn php(&mut self, bus: &mut Bus)
        requires
            old(bus)@.wf(),
            !php(*old(self), old(bus)@).1.faulted,
            old(self).headroom(2),
        ensures
            (*final(self), final(bus)@) == php(*old(self), old(bus)@),
            final(bus)@.wf(),
            final(self).cycles == old(self).cycles + 2,
    {
        self.tick();
        let status = self.registers.get_status() | 0x30;
        self.push_stack(bus, status);
    }

    fn plp(&mut self, bus: &mut Bus)
        requires
            old(bus)@.wf(),
            !plp(*old(self), old(bus)@).1.faulted,
            old(self).headroom(3),
        ensures
            (*final(self), final(bus)@) == plp(*old(self), old(bus)@),
            final(bus)@.wf(),
            final(self).cycles == old(self).cycles + 3,
    {
        self.tick();
        let stack_value = self.pop_stack(bus);
        self.restore_status(stack_value);
        self.tick();
    }

    fn pha(&mut self, bus: &mut Bus)
        requires
            old(bus)@.wf(),
            !pha(*old(self), old(bus)@).1.faulted,
            old(self).headroom(2),
        ensures
            (*final(self), final(bus)@) == pha(*old(self), old(bus)@),
            final(bus)@.wf(),
            final(self).cycles == old(self).cycles + 2,
    {
        self.tick();
        let a = self.registers.get_a();
        self.push_stack(bus, a);
    }

    fn pla(&mut self, bus: &mut Bus)
        requires
            old(bus)@.wf(),
            !pla(*old(self), old(bus)@).1.faulted,
            old(self).headroom(3),
        ensures
            (*final(self), final(bus)@) == pla(*old(self), old(bus)@),
            final(bus)@.wf(),
            final(self).cycles == old(self).cycles + 3,
    {
        self.tick();
        let stack_value = self.pop_stack(bus);
        self.set_zero(stack_value);
        self.set_negative(stack_value);
        self.registers.set_a(stack_value);
        self.tick();
    }

    // ------------------------------------------------------------------
    // control flow
    // ------------------------------------------------------------------
    /// Pushes PC and `status`, sets I and loads PC from `vector`.
    fn enter_interrupt(&mut self, bus: &mut Bus, status: u8, vector: u16)
        requires
            old(bus)@.wf(),
            !interrupt(*old(self), old(bus)@, status, vector).1.faulted,
            old(self).headroom(5),
            vector < 0xFFFF,
        ensures
            (*final(self), final(bus)@) == interrupt(*old(self), old(bus)@, status, vector),
            final(bus)@.wf(),
            final(self).cycles == old(self).cycles + 5,
    {
        let pc = self.registers.get_pc();
        let upper = (pc >> 8) as u8;
        let lower = pc as u8;
        proof {
            lemma_word16(pc);
        }
        self.push_stack(bus, upper);
        self.push_stack(bus, lower);
        self.push_stack(bus, status);
        self.registers.interrupt_disable = true;
        let lower_vector = self.read_bus(bus, vector);
        let upper_vector = self.read_bus(bus, vector + 1);
        proof {
            lemma_word(lower_vector, upper_vector);
        }
        let new_pc = ((upper_vector as u16) << 8) | (lower_vector as u16);
        self.registers.set_pc(new_pc);
    }

    fn brk(&mut self, bus: &mut Bus)
        requires
            old(bus)@.wf(),
            !brk(*old(self), old(bus)@).1.faulted,
            old(self).headroom(6),
        ensures
            (*final(self), final(bus)@) == brk(*old(self), old(bus)@),
            final(bus)@.wf(),
            final(self).cycles == old(self).cycles + 6,
    {
        self.fetch(bus);
        let status = self.registers.get_status() | 0x30;
        self.enter_interrupt(bus, status, 0xFFFE);
    }

    fn jmp(&mut self, addressing_mode: &AddressingModes, bus: &mut Bus)
        requires
            old(bus)@.wf(),
            !jmp(*old(self), old(bus)@, *addressing_mode).1.faulted,
            old(self).headroom(4),
        ensures
            (*final(self), final(bus)@) == jmp(*old(self), old(bus)@, *addressing_mode),
            final(bus)@.wf(),
            old(self).cycles + 0 <= final(self).cycles <= old(self).cycles + 4,
    {
        let result = self.get_operand_address(addressing_mode, bus);
        self.registers.set_pc(result.address);
    }

    fn jsr(&mut self, addressing_mode: &AddressingModes, bus: &mut Bus)
        requires
            old(bus)@.wf(),
            !jsr(*old(self), old(bus)@, *addressing_mode).1.faulted,
            old(self).headroom(7),
        ensures
            (*final(self), final(bus)@) == jsr(*old(self), old(bus)@, *addressing_mode),
            final(bus)@.wf(),
            old(self).cycles + 3 <= final(self).cycles <= old(self).cycles + 7,
    {
        let result = self.get_operand_address(addressing_mode, bus);
        let pc = self.registers.get_pc().wrapping_sub(1);
        let upper = (pc >> 8) as u8;
        let lower = pc as u8;
        proof {
            lemma_word16(pc);
        }
        self.tick();
        self.push_stack(bus, upper);
        self.push_stack(bus, lower);
        self.registers.set_pc(result.address);
    }

    fn rti(&mut self, bus: &mut Bus)
        requires
            old(bus)@.wf(),
            !rti(*old(self), old(bus)@).1.faulted,
            old(self).headroom(5),
        ensures
            (*final(self), final(bus)@) == rti(*old(self), old(bus)@),
            final(bus)@.wf(),
            final(self).cycles == old(self).cycles + 5,
    {
        self.tick();
        self.tick();
        let status = self.pop_stack(bus);
        let lower = self.pop_stack(bus);
        let upper = self.pop_stack(bus);
        proof {
            lemma_word(lower, upper);
        }
        let new_pc = ((upper as u16) << 8) | (lower as u16);
        self.restore_status(status);
        self.registers.set_pc(new_pc);
    }

    fn rts(&mut self, bus: &mut Bus)
        requires
            old(bus)@.wf(),
            !rts(*old(self), old(bus)@).1.faulted,
            old(self).headroom(5),
        ensures
            (*final(self), final(bus)@) == rts(*old(self), old(bus)@),
            final(bus)@.wf(),
            final(self).cycles == old(self).cycles + 5,
    {
        self.tick();
        self.tick();
        let lower = self.pop_stack(bus);
        let upper = self.pop_stack(bus);
        proof {
            lemma_word(lower, upper);
        }
        let pulled_pc = ((upper as u16) << 8) | (lower as u16);
        let new_pc = pulled_pc.wrapping_add(1);
        self.registers.set_pc(new_pc);
        self.tick();
    }

    fn restore_status(&mut self, value: u8)
        ensures
            *final(self) == with_regs(*old(self), old(self).registers.with_status(value)),
    {
        self.registers.negative = (value & 0x80) != 0;
        self.registers.overflow = (value & 0x40) != 0;
        self.registers.decimal = (value & 0x08) != 0;
        self.registers.interrupt_disable = (value & 0x04) != 0;
        self.registers.zero = (value & 0x02) != 0;
        self.registers.carry = (value & 0x01) != 0;
    }

    fn load_into_register(&mut self, register: LoadRegisters, data: u8)
        ensures
            *final(self) == with_regs(*old(self), with_reg(old(self).registers, register, data)),
    {
        match register {
            LoadRegisters::A => self.registers.set_a(data),
            LoadRegisters::X => self.registers.set_x(data),
            LoadRegisters::Y => self.registers.set_y(data),
        }
    }

    fn get_register_data(&self, register: LoadRegisters) -> (r: u8)
        ensures
            r == reg_value(self.registers, register),
    {
        match register {
            LoadRegisters::A => self.registers.get_a(),
            LoadRegisters::X => self.registers.get_x(),
            LoadRegisters::Y => self.registers.get_y(),
        }
    }

    fn set_zero(&mut self, data: u8)
        ensures
            *final(self) == with_regs(
                *old(self),
                Registers { zero: data == 0, ..old(self).registers },
            ),
    {
        if data == 0 {
            self.registers.zero = true;
        } else {
            self.registers.zero = false;
        }
    }

    fn set_negative(&mut self, data: u8)
        ensures
            *final(self) == with_regs(
                *old(self),
                Registers { negative: data >= 128, ..old(self).registers },
            ),
    {
        proof {
            lemma_byte(data);
        }
        if (data & 0x80) == 0x80 {
            self.registers.negative = true;
        } else {
            self.registers.negative = false;
        }
    }
}

} // verus!
