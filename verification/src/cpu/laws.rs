//! Properties of the 6502 model that span instructions: what one
//! instruction undoes of another, and the arithmetic of ADC, SBC and the
//! compares.
use vstd::prelude::*;
use crate::bits::{lemma_byte, lemma_rotate, lemma_rotate_left};
use crate::bus::{BusState, lemma_ram_read, lemma_ram_write, lemma_ram_write_read, lemma_read_keeps_memory};
use crate::modular::{wadd16, wadd8, wsub16, wsub8, word};
use super::registers::{Registers, bit};
use super::semantics::{
    load_operand, read_op, ReadOp, read_op_regs, rmw_result, RmwOp, effect, branch,
    adc_regs, brk, compare_regs, fetched, interrupt_vector, service_interrupt, hi_byte, interrupt, jsr, lo_byte, operand, pha, php, pla, plp,
    pull, push, read_bus, rti, rts, sbc_regs, signed, stack_address, ticked, with_pc, with_regs,
};
use super::{AddressingModes, LoadRegisters, CPU};
use super::decode::Instruction;

verus! {

/// Pulling the status byte that the registers push gives every flag back
/// (B, which a pull leaves alone, included).
pub proof fn lemma_status_roundtrip(r: Registers)
    ensures
        r.with_status(r.status()) == r,
        r.with_status(r.status() | 0x30) == r,
        r.with_status((r.status() & 0xEF) | 0x20) == r,
{
    let (n, v, b, d, i, z, c) = (
        r.negative,
        r.overflow,
        r.breakins,
        r.decimal,
        r.interrupt_disable,
        r.zero,
        r.carry,
    );
    let s = r.status();
    assert(s == bit(n) * 128 + bit(v) * 64 + 32 + bit(b) * 16 + bit(d) * 8 + bit(i) * 4 + bit(z)
        * 2 + bit(c));
    assert((s & 0x80 != 0) == n && (s & 0x40 != 0) == v && (s & 0x08 != 0) == d && (s & 0x04 != 0)
        == i && (s & 0x02 != 0) == z && (s & 0x01 != 0) == c && ((s | 0x30) & 0x80 != 0) == n && ((s
        | 0x30) & 0x40 != 0) == v && ((s | 0x30) & 0x08 != 0) == d && ((s | 0x30) & 0x04 != 0) == i
        && ((s | 0x30) & 0x02 != 0) == z && ((s | 0x30) & 0x01 != 0) == c) by (bit_vector)
        requires
            s == (if n { 1u8 } else { 0u8 }) * 128 + (if v { 1u8 } else { 0u8 }) * 64 + 32 + (if b {
                1u8
            } else {
                0u8
            }) * 16 + (if d { 1u8 } else { 0u8 }) * 8 + (if i { 1u8 } else { 0u8 }) * 4 + (if z {
                1u8
            } else {
                0u8
            }) * 2 + (if c { 1u8 } else { 0u8 }),
    ;
    let t = (s & 0xEF) | 0x20;
    assert((t & 0x80 != 0) == n && (t & 0x40 != 0) == v && (t & 0x08 != 0) == d && (t & 0x04 != 0)
        == i && (t & 0x02 != 0) == z && (t & 0x01 != 0) == c) by (bit_vector)
        requires
            t == (s & 0xEF) | 0x20,
            s == (if n { 1u8 } else { 0u8 }) * 128 + (if v { 1u8 } else { 0u8 }) * 64 + 32 + (if b {
                1u8
            } else {
                0u8
            }) * 16 + (if d { 1u8 } else { 0u8 }) * 8 + (if i { 1u8 } else { 0u8 }) * 4 + (if z {
                1u8
            } else {
                0u8
            }) * 2 + (if c { 1u8 } else { 0u8 }),
    ;
}

/// A stack address is in the RAM window.
pub proof fn lemma_stack_in_ram(sp: u8)
    ensures
        stack_address(sp) <= 0x1FFF,
        stack_address(sp) as int % 2048 == 0x100 + sp as int,
{
}

/// Pulling right after a push gives the pushed byte back and restores
/// the stack pointer.
pub proof fn lemma_push_pull(c: CPU, b: BusState, v: u8)
    requires
        b.ram.len() == 2048,
        c.cycles as int + 2 <= u32::MAX,
    ensures
        ({
            let (c1, b1) = push(c, b, v);
            let (v2, c2, b2) = pull(c1, b1);
            &&& v2 == v
            &&& c2.registers == c.registers
            &&& c2.cycles == c.cycles + 2
            &&& b2.ram == b1.ram
        }),
{
    let sp = c.registers.sp;
    let (c1, b1) = push(c, b, v);
    lemma_stack_in_ram(sp);
    let sp2 = wadd8(wsub8(sp, 1), 1);
    assert(sp2 == sp);
    lemma_ram_write(b, stack_address(sp), v);
    lemma_ram_read(b1, stack_address(sp));
    crate::memory::lemma_ram_write_read(b.ram, stack_address(sp), stack_address(sp), v);
}

/// PLA right after PHA gives A back (setting Z and N from it) and
/// restores the stack pointer.
pub proof fn lemma_pha_pla(c: CPU, b: BusState)
    requires
        b.ram.len() == 2048,
        c.cycles as int + 5 <= u32::MAX,
    ensures
        ({
            let (c1, b1) = pha(c, b);
            let (c2, b2) = pla(c1, b1);
            &&& c2.registers == c.registers.with_zn(c.registers.a)
            &&& c2.cycles == c.cycles + 5
        }),
{
    lemma_push_pull(ticked(c), b, c.registers.a);
}

/// PLP right after PHP restores every flag and the stack pointer.
pub proof fn lemma_php_plp(c: CPU, b: BusState)
    requires
        b.ram.len() == 2048,
        c.cycles as int + 5 <= u32::MAX,
    ensures
        ({
            let (c1, b1) = php(c, b);
            let (c2, b2) = plp(c1, b1);
            &&& c2.registers == c.registers
            &&& c2.cycles == c.cycles + 5
        }),
{
    let t = ticked(c);
    lemma_push_pull(t, b, t.registers.status() | 0x30);
    lemma_status_roundtrip(c.registers);
}

/// The two bytes of a word make it again.
pub proof fn lemma_bytes_word(w: u16)
    ensures
        word(lo_byte(w), hi_byte(w)) == w,
{
}

/// RTS right after JSR returns to the byte after JSR's operand: with PC
/// at the operand, PC ends 2 further on, and the stack pointer is back.
pub proof fn lemma_jsr_rts(c: CPU, b: BusState)
    requires
        b.ram.len() == 2048,
        c.cycles as int + 10 <= u32::MAX,
    ensures
        ({
            let (c1, b1) = jsr(c, b, AddressingModes::Absolute);
            let (c2, b2) = rts(c1, b1);
            &&& c2.registers.pc == wadd16(c.registers.pc, 2)
            &&& c2.registers.sp == c.registers.sp
            &&& c2.registers == Registers { pc: wadd16(c.registers.pc, 2), ..c.registers }
        }),
{
    let pc = c.registers.pc;
    let sp = c.registers.sp;
    let (lo, ca, ba) = fetched(c, b);
    lemma_read_keeps_memory(b, pc);
    let (hi, cb, bb) = fetched(ca, ba);
    lemma_read_keeps_memory(ba, ca.registers.pc);
    let (res, c1, b1) = operand(c, b, AddressingModes::Absolute);
    assert(b1 == bb);
    assert(c1.registers.pc == wadd16(wadd16(pc, 1), 1));
    let ret = wsub16(c1.registers.pc, 1);
    assert(ret == wadd16(pc, 1));
    let (c2, b2) = push(ticked(c1), b1, hi_byte(ret));
    let (c3, b3) = push(c2, b2, lo_byte(ret));
    lemma_stack_in_ram(sp);
    lemma_stack_in_ram(wsub8(sp, 1));
    lemma_ram_write(b1, stack_address(sp), hi_byte(ret));
    lemma_ram_write(b2, stack_address(wsub8(sp, 1)), lo_byte(ret));
    let c4 = with_pc(c3, res.address);
    // the pulls
    let (plo, c5, b5) = pull(c4, b3);
    lemma_ram_read(b3, stack_address(wsub8(sp, 1)));
    let (phi, c6, b6) = pull(c5, b5);
    lemma_ram_read(b5, stack_address(sp));
    assert(plo == lo_byte(ret));
    assert(phi == hi_byte(ret));
    lemma_bytes_word(ret);
}

/// RTI right after an interrupt entry that pushed the current flags
/// resumes where the interrupt struck, with every flag (I included) as it
/// was.
pub proof fn lemma_interrupt_rti(c: CPU, b: BusState, st: u8, vector: u16)
    requires
        b.ram.len() == 2048,
        c.cycles as int + 10 <= u32::MAX,
        vector < 0xFFFF,
        c.registers.with_status(st) == c.registers,
    ensures
        ({
            let (c1, b1) = interrupt(c, b, st, vector);
            let (c2, b2) = rti(c1, b1);
            c2.registers == c.registers
        }),
{
    let pc = c.registers.pc;
    let sp = c.registers.sp;
    let (c1, b1) = push(c, b, hi_byte(pc));
    let (c2, b2) = push(c1, b1, lo_byte(pc));
    let (c3, b3) = push(c2, b2, st);
    let s1 = wsub8(sp, 1);
    let s2 = wsub8(s1, 1);
    lemma_stack_in_ram(sp);
    lemma_stack_in_ram(s1);
    lemma_stack_in_ram(s2);
    lemma_ram_write(b, stack_address(sp), hi_byte(pc));
    lemma_ram_write(b1, stack_address(s1), lo_byte(pc));
    lemma_ram_write(b2, stack_address(s2), st);
    let c4 = with_regs(c3, Registers { interrupt_disable: true, ..c3.registers });
    let (lo, c5, b5) = read_bus(c4, b3, vector);
    lemma_read_keeps_memory(b3, vector);
    let (hi, c6, b6) = read_bus(c5, b5, (vector + 1) as u16);
    lemma_read_keeps_memory(b5, (vector + 1) as u16);
    let c7 = with_pc(c6, word(lo, hi));
    let (ps, c8, b8) = pull(c7, b6);
    lemma_ram_read(b6, stack_address(s2));
    let (plo, c9, b9) = pull(c8, b8);
    lemma_ram_read(b8, stack_address(s1));
    let (phi, c10, b10) = pull(c9, b9);
    lemma_ram_read(b9, stack_address(sp));
    assert(ps == st);
    assert(plo == lo_byte(pc));
    assert(phi == hi_byte(pc));
    lemma_bytes_word(pc);
}

/// RTI right after BRK resumes after BRK's padding byte with every flag as
/// it was.
pub proof fn lemma_brk_rti(c: CPU, b: BusState)
    requires
        b.ram.len() == 2048,
        c.cycles as int + 11 <= u32::MAX,
    ensures
        ({
            let (c1, b1) = brk(c, b);
            let (c2, b2) = rti(c1, b1);
            c2.registers == Registers { pc: wadd16(c.registers.pc, 1), ..c.registers }
        }),
{
    let (pad, c1, b1) = fetched(c, b);
    lemma_read_keeps_memory(b, c.registers.pc);
    lemma_status_roundtrip(c1.registers);
    lemma_interrupt_rti(c1, b1, c1.registers.status() | 0x30, 0xFFFE);
}

/// RTI right after an NMI or IRQ entry resumes the interrupted program
/// with every flag as it was.
pub proof fn lemma_service_rti(c: CPU, b: BusState, kind: u8)
    requires
        b.ram.len() == 2048,
        c.cycles as int + 12 <= u32::MAX,
    ensures
        ({
            let (c1, b1) = service_interrupt(c, b, kind);
            let (c2, b2) = rti(c1, b1);
            c2.registers == c.registers
        }),
{
    let c0 = ticked(ticked(c));
    lemma_status_roundtrip(c0.registers);
    lemma_interrupt_rti(c0, b, (c0.registers.status() & 0xEF) | 0x20, interrupt_vector(kind));
}

/// ADC's overflow flag is signed overflow: the signed sum of A, M and C
/// falls outside -128..=127.
pub proof fn lemma_adc_signed_overflow(r: Registers, m: u8)
    ensures
        adc_regs(r, m).overflow == !(-128 <= signed(r.a) + signed(m) + bit(r.carry) <= 127),
        adc_regs(r, m).a == (r.a as int + m as int + bit(r.carry) as int) % 256,
        adc_regs(r, m).carry == (r.a as int + m as int + bit(r.carry) as int > 255),
{
}

/// SBC subtracts M and the borrow (the complement of C): A - M - (1 - C)
/// modulo 256, and C afterwards says no borrow was needed.
pub proof fn lemma_sbc_subtracts(r: Registers, m: u8)
    ensures
        sbc_regs(r, m).a == (r.a as int - m as int - (1 - bit(r.carry) as int)) % 256,
        sbc_regs(r, m).carry == (r.a as int >= m as int + (1 - bit(r.carry) as int)),
{
}

/// The compares: Z when equal, C when the register is not below M, N from
/// bit 7 of the difference.
pub proof fn lemma_compare(r: Registers, reg: u8, m: u8)
    ensures
        compare_regs(r, reg, m).zero == (reg == m),
        compare_regs(r, reg, m).carry == (reg >= m),
        compare_regs(r, reg, m).negative == ((reg as int - m as int) % 256 >= 128),
{
}

/// BIT: V is bit 6 and N is bit 7 of the operand byte, Z says whether A
/// AND the operand is 0, and A, X, Y, the stack pointer, C, I, D and B keep
/// their values.
pub proof fn lemma_bit_flags(c: CPU, b: BusState, mode: AddressingModes)
    ensures
        ({
            let (m, c1, b1) = load_operand(c, b, mode);
            let (c2, b2) = read_op(c, b, mode, ReadOp::Bit);
            &&& c2.registers.overflow == (m & 0x40 != 0)
            &&& c2.registers.negative == (m & 0x80 != 0)
            &&& c2.registers.zero == (c.registers.a & m == 0)
            &&& c2.registers.a == c.registers.a && c2.registers.x == c.registers.x
            &&& c2.registers.y == c.registers.y && c2.registers.sp == c.registers.sp
            &&& c2.registers.carry == c.registers.carry
            &&& c2.registers.interrupt_disable == c.registers.interrupt_disable
            &&& c2.registers.decimal == c.registers.decimal
            &&& c2.registers.breakins == c.registers.breakins
            &&& c2.registers.pc == c1.registers.pc && c2.cycles == c1.cycles && b2 == b1
        }),
{
    let (m, c1, b1) = load_operand(c, b, mode);
    lemma_byte(m);
}
/// The transfers, each in one cycle after the opcode fetch: TAX, TAY,
/// TXA, TYA and TSX copy a register and set Z when the value is 0 and N
/// from its bit 7; TXS copies X to the stack pointer and leaves the flags
/// alone; the bus is not touched.
#[verifier::rlimit(100)]
pub proof fn lemma_transfers(c: CPU, b: BusState)
    ensures
        effect(c, b, Instruction::Tax) == ((CPU {
            registers: Registers { x: c.registers.a, zero: c.registers.a == 0, negative: c.registers.a & 0x80 != 0, ..c.registers },
            cycles: (c.cycles + 1) as u32,
            ..c
        }), b),
        effect(c, b, Instruction::Tay) == ((CPU {
            registers: Registers { y: c.registers.a, zero: c.registers.a == 0, negative: c.registers.a & 0x80 != 0, ..c.registers },
            cycles: (c.cycles + 1) as u32,
            ..c
        }), b),
        effect(c, b, Instruction::Txa) == ((CPU {
            registers: Registers { a: c.registers.x, zero: c.registers.x == 0, negative: c.registers.x & 0x80 != 0, ..c.registers },
            cycles: (c.cycles + 1) as u32,
            ..c
        }), b),
        effect(c, b, Instruction::Tya) == ((CPU {
            registers: Registers { a: c.registers.y, zero: c.registers.y == 0, negative: c.registers.y & 0x80 != 0, ..c.registers },
            cycles: (c.cycles + 1) as u32,
            ..c
        }), b),
        effect(c, b, Instruction::Tsx) == ((CPU {
            registers: Registers { x: c.registers.sp, zero: c.registers.sp == 0, negative: c.registers.sp & 0x80 != 0, ..c.registers },
            cycles: (c.cycles + 1) as u32,
            ..c
        }), b),
        effect(c, b, Instruction::Txs) == ((CPU {
            registers: Registers { sp: c.registers.x, ..c.registers },
            cycles: (c.cycles + 1) as u32,
            ..c
        }), b),
{
    reveal(effect);
    lemma_byte(c.registers.a);
    lemma_byte(c.registers.x);
    lemma_byte(c.registers.y);
    lemma_byte(c.registers.sp);
}

/// INX, INY, DEX and DEY, each in one cycle after the opcode fetch, count
/// their register modulo 256, set Z when the result is 0 and N from its
/// bit 7, and do not touch the bus.
#[verifier::rlimit(100)]
pub proof fn lemma_register_counts(c: CPU, b: BusState)
    ensures
        effect(c, b, Instruction::Inx) == ((CPU {
            registers: Registers { x: ((c.registers.x + 1) % 256) as u8, zero: (c.registers.x + 1) % 256 == 0, negative: ((c.registers.x + 1) % 256) as u8 & 0x80 != 0, ..c.registers },
            cycles: (c.cycles + 1) as u32,
            ..c
        }), b),
        effect(c, b, Instruction::Iny) == ((CPU {
            registers: Registers { y: ((c.registers.y + 1) % 256) as u8, zero: (c.registers.y + 1) % 256 == 0, negative: ((c.registers.y + 1) % 256) as u8 & 0x80 != 0, ..c.registers },
            cycles: (c.cycles + 1) as u32,
            ..c
        }), b),
        effect(c, b, Instruction::Dex) == ((CPU {
            registers: Registers { x: ((c.registers.x + 255) % 256) as u8, zero: c.registers.x == 1, negative: ((c.registers.x + 255) % 256) as u8 & 0x80 != 0, ..c.registers },
            cycles: (c.cycles + 1) as u32,
            ..c
        }), b),
        effect(c, b, Instruction::Dey) == ((CPU {
            registers: Registers { y: ((c.registers.y + 255) % 256) as u8, zero: c.registers.y == 1, negative: ((c.registers.y + 255) % 256) as u8 & 0x80 != 0, ..c.registers },
            cycles: (c.cycles + 1) as u32,
            ..c
        }), b),
{
    reveal(effect);
    let r = c.registers;
    lemma_byte(((r.x + 1) % 256) as u8);
    lemma_byte(((r.y + 1) % 256) as u8);
    lemma_byte(((r.x + 255) % 256) as u8);
    lemma_byte(((r.y + 255) % 256) as u8);
}

/// The flag instructions, each in one cycle after the opcode fetch, clear
/// or set exactly their flag (CLC/SEC carry, CLI/SEI interrupt disable,
/// CLV overflow, CLD/SED decimal); NOP changes nothing but the cycle count;
/// none of them touches the bus.
#[verifier::rlimit(100)]
pub proof fn lemma_flag_instructions(c: CPU, b: BusState)
    ensures
        effect(c, b, Instruction::Clc) == ((CPU {
            registers: Registers { carry: false, ..c.registers },
            cycles: (c.cycles + 1) as u32,
            ..c
        }), b),
        effect(c, b, Instruction::Sec) == ((CPU {
            registers: Registers { carry: true, ..c.registers },
            cycles: (c.cycles + 1) as u32,
            ..c
        }), b),
        effect(c, b, Instruction::Cli) == ((CPU {
            registers: Registers { interrupt_disable: false, ..c.registers },
            cycles: (c.cycles + 1) as u32,
            ..c
        }), b),
        effect(c, b, Instruction::Sei) == ((CPU {
            registers: Registers { interrupt_disable: true, ..c.registers },
            cycles: (c.cycles + 1) as u32,
            ..c
        }), b),
        effect(c, b, Instruction::Clv) == ((CPU {
            registers: Registers { overflow: false, ..c.registers },
            cycles: (c.cycles + 1) as u32,
            ..c
        }), b),
        effect(c, b, Instruction::Cld) == ((CPU {
            registers: Registers { decimal: false, ..c.registers },
            cycles: (c.cycles + 1) as u32,
            ..c
        }), b),
        effect(c, b, Instruction::Sed) == ((CPU {
            registers: Registers { decimal: true, ..c.registers },
            cycles: (c.cycles + 1) as u32,
            ..c
        }), b),
        effect(c, b, Instruction::Nop) == ((CPU { cycles: (c.cycles + 1) as u32, ..c }), b),
{
    reveal(effect);
}

/// The branch conditions: BPL/BMI test N clear/set, BVC/BVS V, BCC/BCS C
/// and BNE/BEQ Z.
pub proof fn lemma_branch_conditions(c: CPU, b: BusState)
    ensures
        effect(c, b, Instruction::Bpl) == branch(c, b, !c.registers.negative),
        effect(c, b, Instruction::Bmi) == branch(c, b, c.registers.negative),
        effect(c, b, Instruction::Bvc) == branch(c, b, !c.registers.overflow),
        effect(c, b, Instruction::Bvs) == branch(c, b, c.registers.overflow),
        effect(c, b, Instruction::Bcc) == branch(c, b, !c.registers.carry),
        effect(c, b, Instruction::Bcs) == branch(c, b, c.registers.carry),
        effect(c, b, Instruction::Bne) == branch(c, b, !c.registers.zero),
        effect(c, b, Instruction::Beq) == branch(c, b, c.registers.zero),
{
    reveal(effect);
}

/// A branch reads its offset byte; taken, it moves PC from the next
/// instruction by the offset as a signed byte (-128..=127), modulo 2^16,
/// else PC is at the next instruction; only the registers' PC changes.
pub proof fn lemma_branch_target(c: CPU, b: BusState, taken: bool)
    ensures
        ({
            let (off, c1, b1) = fetched(c, b);
            let next = c1.registers.pc as int;
            let d = if off < 0x80 {
                off as int
            } else {
                off as int - 0x100
            };
            let (c2, b2) = branch(c, b, taken);
            &&& c2.registers.pc == if taken {
                ((next + d) % 0x10000) as u16
            } else {
                next as u16
            }
            &&& c2.registers == (Registers { pc: c2.registers.pc, ..c.registers })
            &&& b2 == b1
        }),
{
}

/// The logic and load instructions: ORA, AND and EOR put A OR, AND, XOR
/// the operand in A, a load puts the operand in its register, and each
/// sets Z when that value is 0 and N from its bit 7, keeping every other
/// flag and register.
pub proof fn lemma_logic_and_loads(r: Registers, m: u8)
    ensures
        read_op_regs(ReadOp::Ora, r, m) == (Registers {
            a: r.a | m,
            zero: r.a | m == 0,
            negative: (r.a | m) & 0x80 != 0,
            ..r
        }),
        read_op_regs(ReadOp::And, r, m) == (Registers {
            a: r.a & m,
            zero: r.a & m == 0,
            negative: (r.a & m) & 0x80 != 0,
            ..r
        }),
        read_op_regs(ReadOp::Eor, r, m) == (Registers {
            a: r.a ^ m,
            zero: r.a ^ m == 0,
            negative: (r.a ^ m) & 0x80 != 0,
            ..r
        }),
        read_op_regs(ReadOp::Ld(LoadRegisters::A), r, m) == (Registers {
            a: m,
            zero: m == 0,
            negative: m & 0x80 != 0,
            ..r
        }),
        read_op_regs(ReadOp::Ld(LoadRegisters::X), r, m) == (Registers {
            x: m,
            zero: m == 0,
            negative: m & 0x80 != 0,
            ..r
        }),
        read_op_regs(ReadOp::Ld(LoadRegisters::Y), r, m) == (Registers {
            y: m,
            zero: m == 0,
            negative: m & 0x80 != 0,
            ..r
        }),
{
    lemma_byte(r.a | m);
    lemma_byte(r.a & m);
    lemma_byte(r.a ^ m);
    lemma_byte(m);
}

/// The shifts and rotates as bit operations: ASL shifts left and carries
/// out bit 7, LSR shifts right and carries out bit 0, ROL and ROR do the
/// same with the old carry shifted in at bit 0 and bit 7; INC and DEC
/// count modulo 256 and keep the carry.
pub proof fn lemma_shift_results(v: u8, c: bool)
    ensures
        rmw_result(RmwOp::Asl, v, c) == (v << 1u8, v & 0x80 != 0),
        rmw_result(RmwOp::Lsr, v, c) == (v >> 1u8, v & 0x01 != 0),
        rmw_result(RmwOp::Rol, v, c) == ((v << 1u8) | bit(c), v & 0x80 != 0),
        rmw_result(RmwOp::Ror, v, c) == ((v >> 1u8) | (bit(c) << 7u8), v & 0x01 != 0),
        rmw_result(RmwOp::Inc, v, c) == (((v as int + 1) % 256) as u8, c),
        rmw_result(RmwOp::Dec, v, c) == (((v as int + 255) % 256) as u8, c),
{
    lemma_byte(v);
    lemma_rotate_left(v, bit(c));
    lemma_rotate_left(v, 0);
    lemma_rotate(v, bit(c));
}

/// The status byte, bit 7 down to bit 0: N, V, 1, B, D, I, Z, C.
pub proof fn lemma_status_layout(r: Registers)
    ensures
        (r.status() & 0x80 != 0) == r.negative,
        (r.status() & 0x40 != 0) == r.overflow,
        r.status() & 0x20 != 0,
        (r.status() & 0x10 != 0) == r.breakins,
        (r.status() & 0x08 != 0) == r.decimal,
        (r.status() & 0x04 != 0) == r.interrupt_disable,
        (r.status() & 0x02 != 0) == r.zero,
        (r.status() & 0x01 != 0) == r.carry,
{
    let (n, v, b, d, i, z, c) = (
        r.negative,
        r.overflow,
        r.breakins,
        r.decimal,
        r.interrupt_disable,
        r.zero,
        r.carry,
    );
    let s = r.status();
    assert(s == bit(n) * 128 + bit(v) * 64 + 32 + bit(b) * 16 + bit(d) * 8 + bit(i) * 4 + bit(z)
        * 2 + bit(c));
    assert((s & 0x80 != 0) == n && (s & 0x40 != 0) == v && s & 0x20 != 0 && (s & 0x10 != 0) == b
        && (s & 0x08 != 0) == d && (s & 0x04 != 0) == i && (s & 0x02 != 0) == z && (s & 0x01 != 0)
        == c) by (bit_vector)
        requires
            s == (if n { 1u8 } else { 0u8 }) * 128 + (if v { 1u8 } else { 0u8 }) * 64 + 32 + (if b {
                1u8
            } else {
                0u8
            }) * 16 + (if d { 1u8 } else { 0u8 }) * 8 + (if i { 1u8 } else { 0u8 }) * 4 + (if z {
                1u8
            } else {
                0u8
            }) * 2 + (if c { 1u8 } else { 0u8 }),
    ;
}

/// A status byte pulled by PLP or RTI sets N from bit 7, V from bit 6, D
/// from bit 3, I from bit 2, Z from bit 1 and C from bit 0, and leaves B
/// and the other registers as they were.
pub proof fn lemma_pulled_status(r: Registers, v: u8)
    ensures
        r.with_status(v) == (Registers {
            negative: v & 0x80 != 0,
            overflow: v & 0x40 != 0,
            decimal: v & 0x08 != 0,
            interrupt_disable: v & 0x04 != 0,
            zero: v & 0x02 != 0,
            carry: v & 0x01 != 0,
            ..r
        }),
{
}

/// The effective addresses of the direct addressing modes, from the
/// operand bytes that follow the opcode: zero-page indexing wraps within
/// page 0; absolute indexing wraps at 2^16 and reports a page crossing when
/// the high byte changes.
#[verifier::rlimit(50)]
pub proof fn lemma_direct_addresses(c: CPU, b: BusState)
    ensures
        ({
            let x = c.registers.x as int;
            let y = c.registers.y as int;
            let (lo, c1, b1) = fetched(c, b);
            let (hi, c2, b2) = fetched(c1, b1);
            let base = hi as int * 256 + lo as int;
            &&& operand(c, b, AddressingModes::Immediate).0.address == c.registers.pc
            &&& operand(c, b, AddressingModes::ZeroPage).0.address == lo
            &&& operand(c, b, AddressingModes::ZeroPageX).0.address == (lo as int + x) % 256
            &&& operand(c, b, AddressingModes::ZeroPageY).0.address == (lo as int + y) % 256
            &&& operand(c, b, AddressingModes::Absolute).0.address == base
            &&& operand(c, b, AddressingModes::AbsoluteX).0.address == (base + x) % 0x10000
            &&& operand(c, b, AddressingModes::AbsoluteX).0.page_crossed == ((base + x) % 0x10000
                / 256 != base / 256)
            &&& operand(c, b, AddressingModes::AbsoluteY).0.address == (base + y) % 0x10000
            &&& operand(c, b, AddressingModes::AbsoluteY).0.page_crossed == ((base + y) % 0x10000
                / 256 != base / 256)
        }),
{
}

/// The effective addresses of the indirect addressing modes: (zp,X) reads
/// its little-endian pointer at zp + X and the byte after, both within
/// page 0; (zp),Y reads its pointer at zp and zp + 1 within page 0 and
/// adds Y, reporting a page crossing when the high byte changes; JMP (abs)
/// reads the target's high byte from the pointer's own page (the 6502's
/// page wrap).
#[verifier::rlimit(50)]
pub proof fn lemma_indirect_addresses(c: CPU, b: BusState)
    ensures
        ({
            let x = c.registers.x as int;
            let y = c.registers.y as int;
            let (lo, c1, b1) = fetched(c, b);
            let (hi, c2, b2) = fetched(c1, b1);
            let base = hi as int * 256 + lo as int;
            let zx = (lo as int + x) % 256;
            let (px, cx, bx) = read_bus(c1, b1, zx as u16);
            let (qx, _cx2, _bx2) = read_bus(cx, bx, ((zx + 1) % 256) as u16);
            let (py, cy, by) = read_bus(c1, b1, lo as u16);
            let (qy, _cy2, _by2) = read_bus(cy, by, ((lo as int + 1) % 256) as u16);
            let ybase = qy as int * 256 + py as int;
            let (tl, ct, bt) = read_bus(c2, b2, base as u16);
            let (th, _ct2, _bt2) = read_bus(ct, bt, ((base / 256) * 256 + (base + 1) % 256) as u16);
            &&& operand(c, b, AddressingModes::XIndexedZeroPageIndirect).0.address == qx as int
                * 256 + px as int
            &&& operand(c, b, AddressingModes::ZeroPageIndirectYPaged).0.address == (ybase + y)
                % 0x10000
            &&& operand(c, b, AddressingModes::ZeroPageIndirectYPaged).0.page_crossed == ((ybase
                + y) % 0x10000 / 256 != ybase / 256)
            &&& operand(c, b, AddressingModes::Indirect).0.address == th as int * 256 + tl as int
        }),
{
}

/// Interrupt entry (BRK, NMI, IRQ) pushes, from the stack pointer down in
/// page 1, the high byte of PC, its low byte, then the status byte given;
/// the stack pointer ends three lower (modulo 256), I is set, and PC is
/// the little-endian word read at the vector and the byte after it.
pub proof fn lemma_interrupt_stack(c: CPU, b: BusState, st: u8, vector: u16)
    requires
        b.ram.len() == 2048,
        vector < 0xFFFF,
    ensures
        ({
            let sp = c.registers.sp as int;
            let pc = c.registers.pc as int;
            let (c2, b2) = interrupt(c, b, st, vector);
            &&& b2.ram[0x100 + sp] == pc / 256
            &&& b2.ram[0x100 + (sp + 255) % 256] == pc % 256
            &&& b2.ram[0x100 + (sp + 254) % 256] == st
            &&& c2.registers.sp == (sp + 253) % 256
            &&& c2.registers.interrupt_disable
        }),
{
    let sp = c.registers.sp;
    let pc = c.registers.pc;
    let (c1, b1) = push(c, b, hi_byte(pc));
    let (c2, b2) = push(c1, b1, lo_byte(pc));
    let (c3, b3) = push(c2, b2, st);
    let s1 = wsub8(sp, 1);
    let s2 = wsub8(s1, 1);
    lemma_stack_in_ram(sp);
    lemma_stack_in_ram(s1);
    lemma_stack_in_ram(s2);
    lemma_ram_write(b, stack_address(sp), hi_byte(pc));
    lemma_ram_write(b1, stack_address(s1), lo_byte(pc));
    lemma_ram_write(b2, stack_address(s2), st);
    let c4 = with_regs(c3, Registers { interrupt_disable: true, ..c3.registers });
    let (lo, c5, b5) = read_bus(c4, b3, vector);
    lemma_read_keeps_memory(b3, vector);
    let (hi, c6, b6) = read_bus(c5, b5, (vector + 1) as u16);
    lemma_read_keeps_memory(b5, (vector + 1) as u16);
}

/// JSR pushes the address of its own last byte (the operand's high byte),
/// high byte first, from the stack pointer down in page 1, moves the stack
/// pointer two lower (modulo 256) and jumps to the operand.
#[verifier::rlimit(80)]
pub proof fn lemma_jsr_stack(c: CPU, b: BusState)
    requires
        b.ram.len() == 2048,
    ensures
        ({
            let sp = c.registers.sp as int;
            let (res, c1, b1) = operand(c, b, AddressingModes::Absolute);
            let ret = (c1.registers.pc as int + 0xFFFF) % 0x10000;
            let (c2, b2) = jsr(c, b, AddressingModes::Absolute);
            &&& b2.ram[0x100 + sp] == ret / 256
            &&& b2.ram[0x100 + (sp + 255) % 256] == ret % 256
            &&& c2.registers.sp == (sp + 254) % 256
            &&& c2.registers.pc == res.address
        }),
{
    let sp = c.registers.sp;
    let (res, c1, b1) = operand(c, b, AddressingModes::Absolute);
    let ret = wsub16(c1.registers.pc, 1);
    let s1 = wsub8(sp, 1);
    lemma_stack_in_ram(sp);
    lemma_stack_in_ram(s1);
    lemma_read_keeps_memory(b, c.registers.pc);
    let (p1, d1, e1) = fetched(c, b);
    lemma_read_keeps_memory(e1, d1.registers.pc);
    let (c2, b2) = push(ticked(c1), b1, hi_byte(ret));
    lemma_ram_write(b1, stack_address(sp), hi_byte(ret));
    lemma_ram_write(b2, stack_address(s1), lo_byte(ret));
    assert(b1.ram.len() == 2048);
}

} // verus!
