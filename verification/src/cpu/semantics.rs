//! The 6502 as a state machine over the CPU and the bus: what every
//! addressing mode and instruction does, stated on [`CPU`] values and
//! [`BusState`]s.
use vstd::prelude::*;
use crate::bus::BusState;
use crate::modular::{wadd16, wadd8, wsub16, wsub8, word};
use super::registers::{Registers, bit};
use super::{AddrResult, AddressingModes, LoadRegisters, CPU};
use super::decode::{Instruction, decoded};

verus! {

/// One more cycle.
pub open spec fn ticked(c: CPU) -> CPU {
    CPU { cycles: (c.cycles + 1) as u32, ..c }
}

pub open spec fn with_regs(c: CPU, r: Registers) -> CPU {
    CPU { registers: r, ..c }
}

pub open spec fn with_pc(c: CPU, pc: u16) -> CPU {
    CPU { registers: Registers { pc, ..c.registers }, ..c }
}

/// A read of the bus, marking the bus as faulted if the read is not one
/// that it defines.
pub open spec fn bus_read(b: BusState, address: u16) -> (u8, BusState) {
    let (v, b1) = b.read(address);
    (v, BusState { faulted: b.faulted || !b.read_ok(address), ..b1 })
}

/// A write to the bus, marking the bus as faulted if the write is not one
/// that it defines.
pub open spec fn bus_write(b: BusState, address: u16, data: u8) -> BusState {
    BusState { faulted: b.faulted || !b.write_ok(address, data), ..b.write(address, data) }
}

/// A bus read costs a cycle.
pub open spec fn read_bus(c: CPU, b: BusState, address: u16) -> (u8, CPU, BusState) {
    let (v, b1) = bus_read(b, address);
    (v, ticked(c), b1)
}

/// The cycles an OAM DMA halts the CPU for, once the write to 0x4014
/// that starts it has taken its cycle: 513, and one more when it starts on
/// an odd cycle.
pub open spec fn dma_stall(cycles: u32) -> int {
    513 + cycles % 2
}

/// A bus write costs a cycle; a write to 0x4014 then halts the CPU for the
/// OAM DMA it starts.
pub open spec fn write_bus(c: CPU, b: BusState, address: u16, data: u8) -> (CPU, BusState) {
    let c1 = ticked(c);
    (if address == 0x4014 {
        CPU { cycles: (c1.cycles + dma_stall(c1.cycles)) as u32, ..c1 }
    } else {
        c1
    }, bus_write(b, address, data))
}

/// Reads the byte at PC and moves PC past it.
pub open spec fn fetched(c: CPU, b: BusState) -> (u8, CPU, BusState) {
    let (v, c1, b1) = read_bus(c, b, c.registers.pc);
    (v, with_pc(c1, wadd16(c.registers.pc, 1)), b1)
}

/// The 256-byte page of an address.
pub open spec fn page(a: u16) -> int {
    a as int / 256
}

/// The offset byte of a relative branch as a signed displacement.
pub open spec fn signed(v: u8) -> int {
    if v < 128 {
        v as int
    } else {
        v as int - 256
    }
}

/// PC moved by a signed 8-bit displacement, modulo 2^16.
pub open spec fn branch_target(pc: u16, offset: u8) -> u16 {
    ((pc as int + signed(offset)) % 0x10000) as u16
}

/// Indexed absolute addressing: `base + index` modulo 2^16, and whether
/// that left the base's page.
pub open spec fn indexed(base: u16, index: u8) -> AddrResult {
    let address = wadd16(base, index as u16);
    AddrResult { address, page_crossed: page(base) != page(address) }
}

pub open spec fn plain(address: u16) -> AddrResult {
    AddrResult { address, page_crossed: false }
}

/// The effective address of an addressing mode, with the operand bytes it
/// consumes from the instruction stream and the pointer bytes it reads.
pub open spec fn operand(c: CPU, b: BusState, mode: AddressingModes) -> (AddrResult, CPU, BusState) {
    let r = c.registers;
    match mode {
        AddressingModes::Accumulator => (plain(0), c, b),
        AddressingModes::NoneAddressing => (plain(0), c, b),
        AddressingModes::Immediate => (plain(r.pc), with_pc(c, wadd16(r.pc, 1)), b),
        AddressingModes::ZeroPage => {
            let (zp, c1, b1) = fetched(c, b);
            (plain(zp as u16), c1, b1)
        },
        AddressingModes::ZeroPageX => {
            let (zp, c1, b1) = fetched(c, b);
            (plain(wadd8(zp, r.x) as u16), c1, b1)
        },
        AddressingModes::ZeroPageY => {
            let (zp, c1, b1) = fetched(c, b);
            (plain(wadd8(zp, r.y) as u16), c1, b1)
        },
        AddressingModes::Absolute => {
            let (lo, c1, b1) = fetched(c, b);
            let (hi, c2, b2) = fetched(c1, b1);
            (plain(word(lo, hi)), c2, b2)
        },
        AddressingModes::AbsoluteX => {
            let (lo, c1, b1) = fetched(c, b);
            let (hi, c2, b2) = fetched(c1, b1);
            (indexed(word(lo, hi), r.x), c2, b2)
        },
        AddressingModes::AbsoluteY => {
            let (lo, c1, b1) = fetched(c, b);
            let (hi, c2, b2) = fetched(c1, b1);
            (indexed(word(lo, hi), r.y), c2, b2)
        },
        AddressingModes::XIndexedZeroPageIndirect => {
            // the pointer is X + the operand, wrapping within the zero page
            let (zp, c1, b1) = fetched(c, b);
            let ptr = wadd8(zp, r.x);
            let (lo, c2, b2) = read_bus(c1, b1, ptr as u16);
            let (hi, c3, b3) = read_bus(c2, b2, wadd8(ptr, 1) as u16);
            (plain(word(lo, hi)), c3, b3)
        },
        AddressingModes::ZeroPageIndirectYPaged => {
            // the zero-page pointer, then + Y
            let (ptr, c1, b1) = fetched(c, b);
            let (lo, c2, b2) = read_bus(c1, b1, ptr as u16);
            let (hi, c3, b3) = read_bus(c2, b2, wadd8(ptr, 1) as u16);
            (indexed(word(lo, hi), r.y), c3, b3)
        },
        AddressingModes::Indirect => {
            // the high byte of the target comes from the same page as the
            // low byte (the 6502's page-wrap behaviour)
            let (lo, c1, b1) = fetched(c, b);
            let (hi, c2, b2) = fetched(c1, b1);
            let ptr = word(lo, hi);
            let (tlo, c3, b3) = read_bus(c2, b2, ptr);
            let hi_ptr = if ptr % 256 == 0xFF {
                (ptr - 0xFF) as u16
            } else {
                (ptr + 1) as u16
            };
            let (thi, c4, b4) = read_bus(c3, b3, hi_ptr);
            (plain(word(tlo, thi)), c4, b4)
        },
        AddressingModes::Relative => {
            let (offset, c1, b1) = fetched(c, b);
            let base = c1.registers.pc;
            let address = branch_target(base, offset);
            (AddrResult { address, page_crossed: page(base) != page(address) }, c1, b1)
        },
    }
}

/// The value of one of A, X, Y.
pub open spec fn reg_value(r: Registers, which: LoadRegisters) -> u8 {
    match which {
        LoadRegisters::A => r.a,
        LoadRegisters::X => r.x,
        LoadRegisters::Y => r.y,
    }
}

/// The registers with one of A, X, Y replaced.
pub open spec fn with_reg(r: Registers, which: LoadRegisters, v: u8) -> Registers {
    match which {
        LoadRegisters::A => Registers { a: v, ..r },
        LoadRegisters::X => Registers { x: v, ..r },
        LoadRegisters::Y => Registers { y: v, ..r },
    }
}

/// Zero-page indexed modes spend a cycle adding the index to the
/// zero-page address.
pub open spec fn zero_page_indexed(mode: AddressingModes) -> bool {
    mode is ZeroPageX || mode is ZeroPageY || mode is XIndexedZeroPageIndirect
}

/// The internal cycle that zero-page indexing takes.
pub open spec fn index_cycle(c: CPU, mode: AddressingModes) -> CPU {
    if zero_page_indexed(mode) {
        ticked(c)
    } else {
        c
    }
}

/// Reads the operand of a read instruction: zero-page indexing costs a
/// cycle, and so does crossing a page while indexing an absolute address.
pub open spec fn load_operand(c: CPU, b: BusState, mode: AddressingModes) -> (u8, CPU, BusState) {
    let (res, c1, b1) = operand(index_cycle(c, mode), b, mode);
    let (v, c2, b2) = read_bus(c1, b1, res.address);
    (v, if res.page_crossed {
        ticked(c2)
    } else {
        c2
    }, b2)
}

/// Whether signed addition of `a` and `m` to `res` overflowed: both
/// operands had the same sign and the result has the other one.
pub open spec fn signed_overflow(a: u8, m: u8, res: u8) -> bool {
    (a >= 128) == (m >= 128) && (res >= 128) != (a >= 128)
}

/// ADC: A + M + C, with carry out of bit 7 and signed overflow.
pub open spec fn adc_regs(r: Registers, m: u8) -> Registers {
    let sum = r.a as int + m as int + bit(r.carry) as int;
    let res = (sum % 256) as u8;
    Registers { a: res, carry: sum > 255, overflow: signed_overflow(r.a, m, res), ..r }.with_zn(res)
}

/// SBC: A - M - (1 - C), which is ADC of the one's complement of M.
pub open spec fn sbc_regs(r: Registers, m: u8) -> Registers {
    adc_regs(r, (255 - m) as u8)
}

/// CMP/CPX/CPY: flags of `reg - m`, carry when `reg >= m`.
pub open spec fn compare_regs(r: Registers, reg: u8, m: u8) -> Registers {
    Registers { carry: reg >= m, ..r }.with_zn(wsub8(reg, m))
}

/// BIT: N and V from bits 7 and 6 of M, Z from A AND M.
pub open spec fn bit_regs(r: Registers, m: u8) -> Registers {
    Registers { negative: m >= 128, overflow: m & 0x40 != 0, zero: r.a & m == 0, ..r }
}

pub open spec fn ora_regs(r: Registers, m: u8) -> Registers {
    Registers { a: r.a | m, ..r }.with_zn(r.a | m)
}

pub open spec fn and_regs(r: Registers, m: u8) -> Registers {
    Registers { a: r.a & m, ..r }.with_zn(r.a & m)
}

pub open spec fn eor_regs(r: Registers, m: u8) -> Registers {
    Registers { a: r.a ^ m, ..r }.with_zn(r.a ^ m)
}

pub open spec fn ld_regs(r: Registers, which: LoadRegisters, m: u8) -> Registers {
    with_reg(r, which, m).with_zn(m)
}

/// The instructions that read one operand and only change registers.
pub ghost enum ReadOp {
    Ld(LoadRegisters),
    Ora,
    And,
    Eor,
    Adc,
    Sbc,
    Cmp,
    Cpx,
    Cpy,
    Bit,
}

/// The registers after a read instruction with operand `m`.
pub open spec fn read_op_regs(op: ReadOp, r: Registers, m: u8) -> Registers {
    match op {
        ReadOp::Ld(which) => ld_regs(r, which, m),
        ReadOp::Ora => ora_regs(r, m),
        ReadOp::And => and_regs(r, m),
        ReadOp::Eor => eor_regs(r, m),
        ReadOp::Adc => adc_regs(r, m),
        ReadOp::Sbc => sbc_regs(r, m),
        ReadOp::Cmp => compare_regs(r, r.a, m),
        ReadOp::Cpx => compare_regs(r, r.x, m),
        ReadOp::Cpy => compare_regs(r, r.y, m),
        ReadOp::Bit => bit_regs(r, m),
    }
}

/// A whole read instruction.
pub open spec fn read_op(c: CPU, b: BusState, mode: AddressingModes, op: ReadOp) -> (CPU, BusState) {
    let (m, c1, b1) = load_operand(c, b, mode);
    (with_regs(c1, read_op_regs(op, c1.registers, m)), b1)
}

/// The read-modify-write operations.
pub ghost enum RmwOp {
    Asl,
    Lsr,
    Rol,
    Ror,
    Inc,
    Dec,
}

/// The result and the carry out of a read-modify-write operation.
pub open spec fn rmw_result(op: RmwOp, v: u8, carry: bool) -> (u8, bool) {
    match op {
        RmwOp::Asl => (((v as int * 2) % 256) as u8, v >= 128),
        RmwOp::Lsr => ((v / 2) as u8, v % 2 == 1),
        RmwOp::Rol => (((v as int * 2 + bit(carry) as int) % 256) as u8, v >= 128),
        RmwOp::Ror => ((v / 2 + bit(carry) as int * 128) as u8, v % 2 == 1),
        RmwOp::Inc => (wadd8(v, 1), carry),
        RmwOp::Dec => (wsub8(v, 1), carry),
    }
}

/// The value a read-modify-write instruction works on: A in accumulator
/// mode, else the memory operand (a read and an internal cycle).
pub open spec fn rmw_input(c: CPU, b: BusState, mode: AddressingModes, address: u16) -> (
    u8,
    CPU,
    BusState,
) {
    match mode {
        AddressingModes::Accumulator => (c.registers.a, c, b),
        _ => {
            let (v, c1, b1) = read_bus(c, b, address);
            (v, ticked(c1), b1)
        },
    }
}

/// Stores a read-modify-write result, setting Z and N: into A (an
/// internal cycle) or back to memory.
pub open spec fn rmw_output(c: CPU, b: BusState, mode: AddressingModes, address: u16, v: u8) -> (
    CPU,
    BusState,
) {
    let c1 = with_regs(c, c.registers.with_zn(v));
    match mode {
        AddressingModes::Accumulator => (ticked(with_regs(c1, Registers { a: v, ..c1.registers })), b),
        _ => write_bus(c1, b, address, v),
    }
}

/// The internal cycle that indexing takes in a read-modify-write
/// instruction: zero page,X and absolute,X always pay it.
pub open spec fn rmw_index_cycle(c: CPU, mode: AddressingModes) -> CPU {
    if mode is ZeroPageX || mode is AbsoluteX {
        ticked(c)
    } else {
        c
    }
}

/// A whole read-modify-write instruction.
pub open spec fn rmw(c: CPU, b: BusState, mode: AddressingModes, op: RmwOp) -> (CPU, BusState) {
    let (res, c1, b1) = operand(rmw_index_cycle(c, mode), b, mode);
    let (v, c2, b2) = rmw_input(c1, b1, mode, res.address);
    let (nv, ncarry) = rmw_result(op, v, c2.registers.carry);
    let c3 = with_regs(c2, Registers { carry: ncarry, ..c2.registers });
    rmw_output(c3, b2, mode, res.address, nv)
}

/// A store: every indexed mode takes an extra cycle.
pub open spec fn store(c: CPU, b: BusState, mode: AddressingModes, which: LoadRegisters) -> (
    CPU,
    BusState,
) {
    let data = reg_value(c.registers, which);
    let c1 = match mode {
        AddressingModes::AbsoluteX => ticked(c),
        AddressingModes::AbsoluteY => ticked(c),
        AddressingModes::ZeroPageIndirectYPaged => ticked(c),
        _ => index_cycle(c, mode),
    };
    let (res, c2, b2) = operand(c1, b, mode);
    write_bus(c2, b2, res.address, data)
}

/// The stack lives in page 1.
pub open spec fn stack_address(sp: u8) -> u16 {
    (0x100 + sp as int) as u16
}

pub open spec fn with_sp(c: CPU, sp: u8) -> CPU {
    CPU { registers: Registers { sp, ..c.registers }, ..c }
}

/// Push: a write cycle at the stack pointer (page 1, so never the DMA
/// port), then the stack pointer moves down.
pub open spec fn push(c: CPU, b: BusState, v: u8) -> (CPU, BusState) {
    (
        with_sp(ticked(c), wsub8(c.registers.sp, 1)),
        bus_write(b, stack_address(c.registers.sp), v),
    )
}

/// Pull: move the stack pointer up, then read there.
pub open spec fn pull(c: CPU, b: BusState) -> (u8, CPU, BusState) {
    let sp = wadd8(c.registers.sp, 1);
    read_bus(with_sp(c, sp), b, stack_address(sp))
}

/// TAX, INX and friends: load a register, set Z and N, one cycle.
pub open spec fn transfer(c: CPU, which: LoadRegisters, v: u8) -> CPU {
    ticked(with_regs(c, ld_regs(c.registers, which, v)))
}

/// A relative branch: the offset byte is always read; a taken branch
/// costs a cycle, and one more if it lands in another page.
pub open spec fn branch(c: CPU, b: BusState, taken: bool) -> (CPU, BusState) {
    let (offset, c1, b1) = fetched(c, b);
    if taken {
        let old_pc = c1.registers.pc;
        let new_pc = branch_target(old_pc, offset);
        let c2 = with_pc(ticked(c1), new_pc);
        (if page(old_pc) != page(new_pc) {
            ticked(c2)
        } else {
            c2
        }, b1)
    } else {
        (c1, b1)
    }
}

pub open spec fn hi_byte(w: u16) -> u8 {
    (w / 256) as u8
}

pub open spec fn lo_byte(w: u16) -> u8 {
    (w % 256) as u8
}

/// Pushes PC (high byte first) and a status byte, sets I and loads PC
/// from the vector at `vector`.
pub open spec fn interrupt(c: CPU, b: BusState, status: u8, vector: u16) -> (CPU, BusState) {
    let pc = c.registers.pc;
    let (c1, b1) = push(c, b, hi_byte(pc));
    let (c2, b2) = push(c1, b1, lo_byte(pc));
    let (c3, b3) = push(c2, b2, status);
    let c4 = with_regs(c3, Registers { interrupt_disable: true, ..c3.registers });
    let (lo, c5, b5) = read_bus(c4, b3, vector);
    let (hi, c6, b6) = read_bus(c5, b5, (vector + 1) as u16);
    (with_pc(c6, word(lo, hi)), b6)
}

/// BRK: skips its padding byte, pushes PC and the status with B set,
/// then jumps through the IRQ/BRK vector at 0xFFFE.
pub open spec fn brk(c: CPU, b: BusState) -> (CPU, BusState) {
    let (_pad, c1, b1) = fetched(c, b);
    interrupt(c1, b1, c1.registers.status() | 0x30, 0xFFFE)
}

pub open spec fn jmp(c: CPU, b: BusState, mode: AddressingModes) -> (CPU, BusState) {
    let (res, c1, b1) = operand(c, b, mode);
    (with_pc(c1, res.address), b1)
}

/// JSR: pushes the address of its own last byte, then jumps.
pub open spec fn jsr(c: CPU, b: BusState, mode: AddressingModes) -> (CPU, BusState) {
    let (res, c1, b1) = operand(c, b, mode);
    let ret = wsub16(c1.registers.pc, 1);
    let (c2, b2) = push(ticked(c1), b1, hi_byte(ret));
    let (c3, b3) = push(c2, b2, lo_byte(ret));
    (with_pc(c3, res.address), b3)
}

/// RTI: two internal cycles, then pulls the status, then PC.
pub open spec fn rti(c: CPU, b: BusState) -> (CPU, BusState) {
    let (status, c1, b1) = pull(ticked(ticked(c)), b);
    let (lo, c2, b2) = pull(c1, b1);
    let (hi, c3, b3) = pull(c2, b2);
    (with_pc(with_regs(c3, c3.registers.with_status(status)), word(lo, hi)), b3)
}

/// RTS: two internal cycles, pulls PC, and a cycle to step past it.
pub open spec fn rts(c: CPU, b: BusState) -> (CPU, BusState) {
    let (lo, c1, b1) = pull(ticked(ticked(c)), b);
    let (hi, c2, b2) = pull(c1, b1);
    (ticked(with_pc(c2, wadd16(word(lo, hi), 1))), b2)
}

pub open spec fn php(c: CPU, b: BusState) -> (CPU, BusState) {
    let c1 = ticked(c);
    push(c1, b, c1.registers.status() | 0x30)
}

pub open spec fn plp(c: CPU, b: BusState) -> (CPU, BusState) {
    let (v, c1, b1) = pull(ticked(c), b);
    (ticked(with_regs(c1, c1.registers.with_status(v))), b1)
}

pub open spec fn pha(c: CPU, b: BusState) -> (CPU, BusState) {
    push(ticked(c), b, c.registers.a)
}

pub open spec fn pla(c: CPU, b: BusState) -> (CPU, BusState) {
    let (v, c1, b1) = pull(ticked(c), b);
    (ticked(with_regs(c1, ld_regs(c1.registers, LoadRegisters::A, v))), b1)
}

/// What one instruction does.
#[verifier::opaque]
pub open spec fn effect(c: CPU, b: BusState, ins: Instruction) -> (CPU, BusState) {
    let r = c.registers;
    match ins {
        Instruction::Brk => brk(c, b),
        Instruction::Jsr => jsr(c, b, AddressingModes::Absolute),
        Instruction::Rti => rti(c, b),
        Instruction::Rts => rts(c, b),
        Instruction::Php => php(c, b),
        Instruction::Plp => plp(c, b),
        Instruction::Pha => pha(c, b),
        Instruction::Pla => pla(c, b),
        Instruction::Dey => (transfer(c, LoadRegisters::Y, wsub8(r.y, 1)), b),
        Instruction::Tay => (transfer(c, LoadRegisters::Y, r.a), b),
        Instruction::Iny => (transfer(c, LoadRegisters::Y, wadd8(r.y, 1)), b),
        Instruction::Inx => (transfer(c, LoadRegisters::X, wadd8(r.x, 1)), b),
        Instruction::Txa => (transfer(c, LoadRegisters::A, r.x), b),
        Instruction::Tax => (transfer(c, LoadRegisters::X, r.a), b),
        Instruction::Dex => (transfer(c, LoadRegisters::X, wsub8(r.x, 1)), b),
        Instruction::Nop => (ticked(c), b),
        Instruction::Txs => (ticked(with_regs(c, Registers { sp: r.x, ..r })), b),
        Instruction::Tsx => (transfer(c, LoadRegisters::X, r.sp), b),
        Instruction::Tya => (transfer(c, LoadRegisters::A, r.y), b),
        Instruction::Clc => (ticked(with_regs(c, Registers { carry: false, ..r })), b),
        Instruction::Sec => (ticked(with_regs(c, Registers { carry: true, ..r })), b),
        Instruction::Cli => (ticked(with_regs(c, Registers { interrupt_disable: false, ..r })), b),
        Instruction::Sei => (ticked(with_regs(c, Registers { interrupt_disable: true, ..r })), b),
        Instruction::Clv => (ticked(with_regs(c, Registers { overflow: false, ..r })), b),
        Instruction::Cld => (ticked(with_regs(c, Registers { decimal: false, ..r })), b),
        Instruction::Sed => (ticked(with_regs(c, Registers { decimal: true, ..r })), b),
        Instruction::Bpl => branch(c, b, !r.negative),
        Instruction::Bmi => branch(c, b, r.negative),
        Instruction::Bvc => branch(c, b, !r.overflow),
        Instruction::Bvs => branch(c, b, r.overflow),
        Instruction::Bcc => branch(c, b, !r.carry),
        Instruction::Bcs => branch(c, b, r.carry),
        Instruction::Bne => branch(c, b, !r.zero),
        Instruction::Beq => branch(c, b, r.zero),
        Instruction::Jmp(m) => jmp(c, b, m),
        Instruction::Ld(m, which) => read_op(c, b, m, ReadOp::Ld(which)),
        Instruction::St(m, which) => store(c, b, m, which),
        Instruction::Ora(m) => read_op(c, b, m, ReadOp::Ora),
        Instruction::And(m) => read_op(c, b, m, ReadOp::And),
        Instruction::Eor(m) => read_op(c, b, m, ReadOp::Eor),
        Instruction::Adc(m) => read_op(c, b, m, ReadOp::Adc),
        Instruction::Sbc(m) => read_op(c, b, m, ReadOp::Sbc),
        Instruction::Cmp(m) => read_op(c, b, m, ReadOp::Cmp),
        Instruction::Cpx(m) => read_op(c, b, m, ReadOp::Cpx),
        Instruction::Cpy(m) => read_op(c, b, m, ReadOp::Cpy),
        Instruction::Bit(m) => read_op(c, b, m, ReadOp::Bit),
        Instruction::Asl(m) => rmw(c, b, m, RmwOp::Asl),
        Instruction::Lsr(m) => rmw(c, b, m, RmwOp::Lsr),
        Instruction::Rol(m) => rmw(c, b, m, RmwOp::Rol),
        Instruction::Ror(m) => rmw(c, b, m, RmwOp::Ror),
        Instruction::Inc(m) => rmw(c, b, m, RmwOp::Inc),
        Instruction::Dec(m) => rmw(c, b, m, RmwOp::Dec),
    }
}

/// Executing an opcode: the instruction it encodes runs; an opcode that
/// is not an official instruction changes nothing and is reported.
pub open spec fn execute_opcode(c: CPU, b: BusState, opcode: u8) -> (CPU, BusState, bool) {
    match decoded(opcode) {
        Some(ins) => {
            let (c1, b1) = effect(c, b, ins);
            (c1, b1, true)
        },
        None => (c, b, false),
    }
}

/// RESET: PC from the vector at 0xFFFC, the stack pointer at 0xFD and
/// interrupts disabled.
pub open spec fn reset(c: CPU, b: BusState) -> (CPU, BusState) {
    let (lo, c1, b1) = read_bus(c, b, 0xFFFC);
    let (hi, c2, b2) = read_bus(c1, b1, 0xFFFD);
    (
        with_regs(
            c2,
            Registers { pc: word(lo, hi), sp: 0xFD, interrupt_disable: true, ..c2.registers },
        ),
        b2,
    )
}

/// The vector of an interrupt: NMI (kind 0) at 0xFFFA, IRQ at 0xFFFE.
pub open spec fn interrupt_vector(kind: u8) -> u16 {
    if kind == 0 {
        0xFFFA
    } else {
        0xFFFE
    }
}

/// Servicing an NMI or IRQ: two internal cycles, then PC and the status
/// (with B clear) are pushed and PC is loaded from the vector.
pub open spec fn service_interrupt(c: CPU, b: BusState, kind: u8) -> (CPU, BusState) {
    let c1 = ticked(ticked(c));
    interrupt(c1, b, (c1.registers.status() & 0xEF) | 0x20, interrupt_vector(kind))
}

} // verus!
