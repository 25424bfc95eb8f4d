//! Instruction decoding: the opcode's cc (bits 0-1), bbb (bits 2-4) and
//! aaa (bits 5-7) fields select the official 6502 instructions.
use vstd::prelude::*;
use super::{AddressingModes, LoadRegisters};

verus! {

/// An official 6502 instruction with the operands its opcode selects.
#[derive(Clone, Copy, Debug)]
pub enum Instruction {
    Brk,
    Jsr,
    Rti,
    Rts,
    Php,
    Plp,
    Pha,
    Pla,
    Dey,
    Tay,
    Iny,
    Inx,
    Txa,
    Tax,
    Dex,
    Nop,
    Txs,
    Tsx,
    Clc,
    Sec,
    Cli,
    Sei,
    Tya,
    Clv,
    Cld,
    Sed,
    Bpl,
    Bmi,
    Bvc,
    Bvs,
    Bcc,
    Bcs,
    Bne,
    Beq,
    Jmp(AddressingModes),
    Ld(AddressingModes, LoadRegisters),
    St(AddressingModes, LoadRegisters),
    Ora(AddressingModes),
    And(AddressingModes),
    Eor(AddressingModes),
    Adc(AddressingModes),
    Sbc(AddressingModes),
    Cmp(AddressingModes),
    Cpx(AddressingModes),
    Cpy(AddressingModes),
    Bit(AddressingModes),
    Asl(AddressingModes),
    Lsr(AddressingModes),
    Rol(AddressingModes),
    Ror(AddressingModes),
    Inc(AddressingModes),
    Dec(AddressingModes),
}

/// The instruction that the fields (cc, aaa, bbb) of an opcode select, or
/// none for an opcode that is not an official instruction.
pub open spec fn decoded_fields(cc: u8, aaa: u8, bbb: u8) -> Option<Instruction> {
    match (cc, aaa, bbb) {
        (0, 0, 0) => Some(Instruction::Brk),
        (0, 0, 2) => Some(Instruction::Php),
        (0, 0, 4) => Some(Instruction::Bpl),
        (0, 0, 6) => Some(Instruction::Clc),
        (0, 1, 0) => Some(Instruction::Jsr),
        (0, 1, 1) => Some(Instruction::Bit(AddressingModes::ZeroPage)),
        (0, 1, 2) => Some(Instruction::Plp),
        (0, 1, 3) => Some(Instruction::Bit(AddressingModes::Absolute)),
        (0, 1, 4) => Some(Instruction::Bmi),
        (0, 1, 6) => Some(Instruction::Sec),
        (0, 2, 0) => Some(Instruction::Rti),
        (0, 2, 2) => Some(Instruction::Pha),
        (0, 2, 3) => Some(Instruction::Jmp(AddressingModes::Absolute)),
        (0, 2, 4) => Some(Instruction::Bvc),
        (0, 2, 6) => Some(Instruction::Cli),
        (0, 3, 0) => Some(Instruction::Rts),
        (0, 3, 2) => Some(Instruction::Pla),
        (0, 3, 3) => Some(Instruction::Jmp(AddressingModes::Indirect)),
        (0, 3, 4) => Some(Instruction::Bvs),
        (0, 3, 6) => Some(Instruction::Sei),
        (0, 4, 1) => Some(Instruction::St(AddressingModes::ZeroPage, LoadRegisters::Y)),
        (0, 4, 2) => Some(Instruction::Dey),
        (0, 4, 3) => Some(Instruction::St(AddressingModes::Absolute, LoadRegisters::Y)),
        (0, 4, 4) => Some(Instruction::Bcc),
        (0, 4, 5) => Some(Instruction::St(AddressingModes::ZeroPageX, LoadRegisters::Y)),
        (0, 4, 6) => Some(Instruction::Tya),
        (0, 5, 0) => Some(Instruction::Ld(AddressingModes::Immediate, LoadRegisters::Y)),
        (0, 5, 1) => Some(Instruction::Ld(AddressingModes::ZeroPage, LoadRegisters::Y)),
        (0, 5, 2) => Some(Instruction::Tay),
        (0, 5, 3) => Some(Instruction::Ld(AddressingModes::Absolute, LoadRegisters::Y)),
        (0, 5, 4) => Some(Instruction::Bcs),
        (0, 5, 5) => Some(Instruction::Ld(AddressingModes::ZeroPageX, LoadRegisters::Y)),
        (0, 5, 6) => Some(Instruction::Clv),
        (0, 5, 7) => Some(Instruction::Ld(AddressingModes::AbsoluteX, LoadRegisters::Y)),
        (0, 6, 0) => Some(Instruction::Cpy(AddressingModes::Immediate)),
        (0, 6, 1) => Some(Instruction::Cpy(AddressingModes::ZeroPage)),
        (0, 6, 2) => Some(Instruction::Iny),
        (0, 6, 3) => Some(Instruction::Cpy(AddressingModes::Absolute)),
        (0, 6, 4) => Some(Instruction::Bne),
        (0, 6, 6) => Some(Instruction::Cld),
        (0, 7, 0) => Some(Instruction::Cpx(AddressingModes::Immediate)),
        (0, 7, 1) => Some(Instruction::Cpx(AddressingModes::ZeroPage)),
        (0, 7, 2) => Some(Instruction::Inx),
        (0, 7, 3) => Some(Instruction::Cpx(AddressingModes::Absolute)),
        (0, 7, 4) => Some(Instruction::Beq),
        (0, 7, 6) => Some(Instruction::Sed),
        (1, 0, 0) => Some(Instruction::Ora(AddressingModes::XIndexedZeroPageIndirect)),
        (1, 0, 1) => Some(Instruction::Ora(AddressingModes::ZeroPage)),
        (1, 0, 2) => Some(Instruction::Ora(AddressingModes::Immediate)),
        (1, 0, 3) => Some(Instruction::Ora(AddressingModes::Absolute)),
        (1, 0, 4) => Some(Instruction::Ora(AddressingModes::ZeroPageIndirectYPaged)),
        (1, 0, 5) => Some(Instruction::Ora(AddressingModes::ZeroPageX)),
        (1, 0, 6) => Some(Instruction::Ora(AddressingModes::AbsoluteY)),
        (1, 0, 7) => Some(Instruction::Ora(AddressingModes::AbsoluteX)),
        (1, 1, 0) => Some(Instruction::And(AddressingModes::XIndexedZeroPageIndirect)),
        (1, 1, 1) => Some(Instruction::And(AddressingModes::ZeroPage)),
        (1, 1, 2) => Some(Instruction::And(AddressingModes::Immediate)),
        (1, 1, 3) => Some(Instruction::And(AddressingModes::Absolute)),
        (1, 1, 4) => Some(Instruction::And(AddressingModes::ZeroPageIndirectYPaged)),
        (1, 1, 5) => Some(Instruction::And(AddressingModes::ZeroPageX)),
        (1, 1, 6) => Some(Instruction::And(AddressingModes::AbsoluteY)),
        (1, 1, 7) => Some(Instruction::And(AddressingModes::AbsoluteX)),
        (1, 2, 0) => Some(Instruction::Eor(AddressingModes::XIndexedZeroPageIndirect)),
        (1, 2, 1) => Some(Instruction::Eor(AddressingModes::ZeroPage)),
        (1, 2, 2) => Some(Instruction::Eor(AddressingModes::Immediate)),
        (1, 2, 3) => Some(Instruction::Eor(AddressingModes::Absolute)),
        (1, 2, 4) => Some(Instruction::Eor(AddressingModes::ZeroPageIndirectYPaged)),
        (1, 2, 5) => Some(Instruction::Eor(AddressingModes::ZeroPageX)),
        (1, 2, 6) => Some(Instruction::Eor(AddressingModes::AbsoluteY)),
        (1, 2, 7) => Some(Instruction::Eor(AddressingModes::AbsoluteX)),
        (1, 3, 0) => Some(Instruction::Adc(AddressingModes::XIndexedZeroPageIndirect)),
        (1, 3, 1) => Some(Instruction::Adc(AddressingModes::ZeroPage)),
        (1, 3, 2) => Some(Instruction::Adc(AddressingModes::Immediate)),
        (1, 3, 3) => Some(Instruction::Adc(AddressingModes::Absolute)),
        (1, 3, 4) => Some(Instruction::Adc(AddressingModes::ZeroPageIndirectYPaged)),
        (1, 3, 5) => Some(Instruction::Adc(AddressingModes::ZeroPageX)),
        (1, 3, 6) => Some(Instruction::Adc(AddressingModes::AbsoluteY)),
        (1, 3, 7) => Some(Instruction::Adc(AddressingModes::AbsoluteX)),
        (1, 4, 0) => Some(Instruction::St(AddressingModes::XIndexedZeroPageIndirect, LoadRegisters::A)),
        (1, 4, 1) => Some(Instruction::St(AddressingModes::ZeroPage, LoadRegisters::A)),
        (1, 4, 3) => Some(Instruction::St(AddressingModes::Absolute, LoadRegisters::A)),
        (1, 4, 4) => Some(Instruction::St(AddressingModes::ZeroPageIndirectYPaged, LoadRegisters::A)),
        (1, 4, 5) => Some(Instruction::St(AddressingModes::ZeroPageX, LoadRegisters::A)),
        (1, 4, 6) => Some(Instruction::St(AddressingModes::AbsoluteY, LoadRegisters::A)),
        (1, 4, 7) => Some(Instruction::St(AddressingModes::AbsoluteX, LoadRegisters::A)),
        (1, 5, 0) => Some(Instruction::Ld(AddressingModes::XIndexedZeroPageIndirect, LoadRegisters::A)),
        (1, 5, 1) => Some(Instruction::Ld(AddressingModes::ZeroPage, LoadRegisters::A)),
        (1, 5, 2) => Some(Instruction::Ld(AddressingModes::Immediate, LoadRegisters::A)),
        (1, 5, 3) => Some(Instruction::Ld(AddressingModes::Absolute, LoadRegisters::A)),
        (1, 5, 4) => Some(Instruction::Ld(AddressingModes::ZeroPageIndirectYPaged, LoadRegisters::A)),
        (1, 5, 5) => Some(Instruction::Ld(AddressingModes::ZeroPageX, LoadRegisters::A)),
        (1, 5, 6) => Some(Instruction::Ld(AddressingModes::AbsoluteY, LoadRegisters::A)),
        (1, 5, 7) => Some(Instruction::Ld(AddressingModes::AbsoluteX, LoadRegisters::A)),
        (1, 6, 0) => Some(Instruction::Cmp(AddressingModes::XIndexedZeroPageIndirect)),
        (1, 6, 1) => Some(Instruction::Cmp(AddressingModes::ZeroPage)),
        (1, 6, 2) => Some(Instruction::Cmp(AddressingModes::Immediate)),
        (1, 6, 3) => Some(Instruction::Cmp(AddressingModes::Absolute)),
        (1, 6, 4) => Some(Instruction::Cmp(AddressingModes::ZeroPageIndirectYPaged)),
        (1, 6, 5) => Some(Instruction::Cmp(AddressingModes::ZeroPageX)),
        (1, 6, 6) => Some(Instruction::Cmp(AddressingModes::AbsoluteY)),
        (1, 6, 7) => Some(Instruction::Cmp(AddressingModes::AbsoluteX)),
        (1, 7, 0) => Some(Instruction::Sbc(AddressingModes::XIndexedZeroPageIndirect)),
        (1, 7, 1) => Some(Instruction::Sbc(AddressingModes::ZeroPage)),
        (1, 7, 2) => Some(Instruction::Sbc(AddressingModes::Immediate)),
        (1, 7, 3) => Some(Instruction::Sbc(AddressingModes::Absolute)),
        (1, 7, 4) => Some(Instruction::Sbc(AddressingModes::ZeroPageIndirectYPaged)),
        (1, 7, 5) => Some(Instruction::Sbc(AddressingModes::ZeroPageX)),
        (1, 7, 6) => Some(Instruction::Sbc(AddressingModes::AbsoluteY)),
        (1, 7, 7) => Some(Instruction::Sbc(AddressingModes::AbsoluteX)),
        (2, 0, 1) => Some(Instruction::Asl(AddressingModes::ZeroPage)),
        (2, 0, 2) => Some(Instruction::Asl(AddressingModes::Accumulator)),
        (2, 0, 3) => Some(Instruction::Asl(AddressingModes::Absolute)),
        (2, 0, 5) => Some(Instruction::Asl(AddressingModes::ZeroPageX)),
        (2, 0, 7) => Some(Instruction::Asl(AddressingModes::AbsoluteX)),
        (2, 1, 1) => Some(Instruction::Rol(AddressingModes::ZeroPage)),
        (2, 1, 2) => Some(Instruction::Rol(AddressingModes::Accumulator)),
        (2, 1, 3) => Some(Instruction::Rol(AddressingModes::Absolute)),
        (2, 1, 5) => Some(Instruction::Rol(AddressingModes::ZeroPageX)),
        (2, 1, 7) => Some(Instruction::Rol(AddressingModes::AbsoluteX)),
        (2, 2, 1) => Some(Instruction::Lsr(AddressingModes::ZeroPage)),
        (2, 2, 2) => Some(Instruction::Lsr(AddressingModes::Accumulator)),
        (2, 2, 3) => Some(Instruction::Lsr(AddressingModes::Absolute)),
        (2, 2, 5) => Some(Instruction::Lsr(AddressingModes::ZeroPageX)),
        (2, 2, 7) => Some(Instruction::Lsr(AddressingModes::AbsoluteX)),
        (2, 3, 1) => Some(Instruction::Ror(AddressingModes::ZeroPage)),
        (2, 3, 2) => Some(Instruction::Ror(AddressingModes::Accumulator)),
        (2, 3, 3) => Some(Instruction::Ror(AddressingModes::Absolute)),
        (2, 3, 5) => Some(Instruction::Ror(AddressingModes::ZeroPageX)),
        (2, 3, 7) => Some(Instruction::Ror(AddressingModes::AbsoluteX)),
        (2, 4, 1) => Some(Instruction::St(AddressingModes::ZeroPage, LoadRegisters::X)),
        (2, 4, 2) => Some(Instruction::Txa),
        (2, 4, 3) => Some(Instruction::St(AddressingModes::Absolute, LoadRegisters::X)),
        (2, 4, 5) => Some(Instruction::St(AddressingModes::ZeroPageY, LoadRegisters::X)),
        (2, 4, 6) => Some(Instruction::Txs),
        (2, 5, 0) => Some(Instruction::Ld(AddressingModes::Immediate, LoadRegisters::X)),
        (2, 5, 1) => Some(Instruction::Ld(AddressingModes::ZeroPage, LoadRegisters::X)),
        (2, 5, 2) => Some(Instruction::Tax),
        (2, 5, 3) => Some(Instruction::Ld(AddressingModes::Absolute, LoadRegisters::X)),
        (2, 5, 5) => Some(Instruction::Ld(AddressingModes::ZeroPageY, LoadRegisters::X)),
        (2, 5, 6) => Some(Instruction::Tsx),
        (2, 5, 7) => Some(Instruction::Ld(AddressingModes::AbsoluteY, LoadRegisters::X)),
        (2, 6, 1) => Some(Instruction::Dec(AddressingModes::ZeroPage)),
        (2, 6, 2) => Some(Instruction::Dex),
        (2, 6, 3) => Some(Instruction::Dec(AddressingModes::Absolute)),
        (2, 6, 5) => Some(Instruction::Dec(AddressingModes::ZeroPageX)),
        (2, 6, 7) => Some(Instruction::Dec(AddressingModes::AbsoluteX)),
        (2, 7, 1) => Some(Instruction::Inc(AddressingModes::ZeroPage)),
        (2, 7, 2) => Some(Instruction::Nop),
        (2, 7, 3) => Some(Instruction::Inc(AddressingModes::Absolute)),
        (2, 7, 5) => Some(Instruction::Inc(AddressingModes::ZeroPageX)),
        (2, 7, 7) => Some(Instruction::Inc(AddressingModes::AbsoluteX)),
        _ => None,
    }
}

pub open spec fn field_cc(opcode: u8) -> u8 {
    opcode & 0x03
}

pub open spec fn field_bbb(opcode: u8) -> u8 {
    (opcode >> 2u8) & 0x07
}

pub open spec fn field_aaa(opcode: u8) -> u8 {
    (opcode >> 5u8) & 0x07
}

/// The instruction an opcode encodes.
pub open spec fn decoded(opcode: u8) -> Option<Instruction> {
    decoded_fields(field_cc(opcode), field_aaa(opcode), field_bbb(opcode))
}

/// Decodes an opcode by its cc/aaa/bbb fields.
pub fn decode(opcode: u8) -> (r: Option<Instruction>)
    ensures
        r == decoded(opcode),
{
    let cc = opcode & 0x03;
    let bbb = (opcode >> 2) & 0x07;
    let aaa = (opcode >> 5) & 0x07;
    match (cc, aaa, bbb) {
            (0, 0, 0) => Some(Instruction::Brk),
            (0, 0, 2) => Some(Instruction::Php),
            (0, 0, 4) => Some(Instruction::Bpl),
            (0, 0, 6) => Some(Instruction::Clc),
            (0, 1, 0) => Some(Instruction::Jsr),
            (0, 1, 1) => Some(Instruction::Bit(AddressingModes::ZeroPage)),
            (0, 1, 2) => Some(Instruction::Plp),
            (0, 1, 3) => Some(Instruction::Bit(AddressingModes::Absolute)),
            (0, 1, 4) => Some(Instruction::Bmi),
            (0, 1, 6) => Some(Instruction::Sec),
            (0, 2, 0) => Some(Instruction::Rti),
            (0, 2, 2) => Some(Instruction::Pha),
            (0, 2, 3) => Some(Instruction::Jmp(AddressingModes::Absolute)),
            (0, 2, 4) => Some(Instruction::Bvc),
            (0, 2, 6) => Some(Instruction::Cli),
            (0, 3, 0) => Some(Instruction::Rts),
            (0, 3, 2) => Some(Instruction::Pla),
            (0, 3, 3) => Some(Instruction::Jmp(AddressingModes::Indirect)),
            (0, 3, 4) => Some(Instruction::Bvs),
            (0, 3, 6) => Some(Instruction::Sei),
            (0, 4, 1) => Some(Instruction::St(AddressingModes::ZeroPage, LoadRegisters::Y)),
            (0, 4, 2) => Some(Instruction::Dey),
            (0, 4, 3) => Some(Instruction::St(AddressingModes::Absolute, LoadRegisters::Y)),
            (0, 4, 4) => Some(Instruction::Bcc),
            (0, 4, 5) => Some(Instruction::St(AddressingModes::ZeroPageX, LoadRegisters::Y)),
            (0, 4, 6) => Some(Instruction::Tya),
            (0, 5, 0) => Some(Instruction::Ld(AddressingModes::Immediate, LoadRegisters::Y)),
            (0, 5, 1) => Some(Instruction::Ld(AddressingModes::ZeroPage, LoadRegisters::Y)),
            (0, 5, 2) => Some(Instruction::Tay),
            (0, 5, 3) => Some(Instruction::Ld(AddressingModes::Absolute, LoadRegisters::Y)),
            (0, 5, 4) => Some(Instruction::Bcs),
            (0, 5, 5) => Some(Instruction::Ld(AddressingModes::ZeroPageX, LoadRegisters::Y)),
            (0, 5, 6) => Some(Instruction::Clv),
            (0, 5, 7) => Some(Instruction::Ld(AddressingModes::AbsoluteX, LoadRegisters::Y)),
            (0, 6, 0) => Some(Instruction::Cpy(AddressingModes::Immediate)),
            (0, 6, 1) => Some(Instruction::Cpy(AddressingModes::ZeroPage)),
            (0, 6, 2) => Some(Instruction::Iny),
            (0, 6, 3) => Some(Instruction::Cpy(AddressingModes::Absolute)),
            (0, 6, 4) => Some(Instruction::Bne),
            (0, 6, 6) => Some(Instruction::Cld),
            (0, 7, 0) => Some(Instruction::Cpx(AddressingModes::Immediate)),
            (0, 7, 1) => Some(Instruction::Cpx(AddressingModes::ZeroPage)),
            (0, 7, 2) => Some(Instruction::Inx),
            (0, 7, 3) => Some(Instruction::Cpx(AddressingModes::Absolute)),
            (0, 7, 4) => Some(Instruction::Beq),
            (0, 7, 6) => Some(Instruction::Sed),
            (1, 0, 0) => Some(Instruction::Ora(AddressingModes::XIndexedZeroPageIndirect)),
            (1, 0, 1) => Some(Instruction::Ora(AddressingModes::ZeroPage)),
            (1, 0, 2) => Some(Instruction::Ora(AddressingModes::Immediate)),
            (1, 0, 3) => Some(Instruction::Ora(AddressingModes::Absolute)),
            (1, 0, 4) => Some(Instruction::Ora(AddressingModes::ZeroPageIndirectYPaged)),
            (1, 0, 5) => Some(Instruction::Ora(AddressingModes::ZeroPageX)),
            (1, 0, 6) => Some(Instruction::Ora(AddressingModes::AbsoluteY)),
            (1, 0, 7) => Some(Instruction::Ora(AddressingModes::AbsoluteX)),
            (1, 1, 0) => Some(Instruction::And(AddressingModes::XIndexedZeroPageIndirect)),
            (1, 1, 1) => Some(Instruction::And(AddressingModes::ZeroPage)),
            (1, 1, 2) => Some(Instruction::And(AddressingModes::Immediate)),
            (1, 1, 3) => Some(Instruction::And(AddressingModes::Absolute)),
            (1, 1, 4) => Some(Instruction::And(AddressingModes::ZeroPageIndirectYPaged)),
            (1, 1, 5) => Some(Instruction::And(AddressingModes::ZeroPageX)),
            (1, 1, 6) => Some(Instruction::And(AddressingModes::AbsoluteY)),
            (1, 1, 7) => Some(Instruction::And(AddressingModes::AbsoluteX)),
            (1, 2, 0) => Some(Instruction::Eor(AddressingModes::XIndexedZeroPageIndirect)),
            (1, 2, 1) => Some(Instruction::Eor(AddressingModes::ZeroPage)),
            (1, 2, 2) => Some(Instruction::Eor(AddressingModes::Immediate)),
            (1, 2, 3) => Some(Instruction::Eor(AddressingModes::Absolute)),
            (1, 2, 4) => Some(Instruction::Eor(AddressingModes::ZeroPageIndirectYPaged)),
            (1, 2, 5) => Some(Instruction::Eor(AddressingModes::ZeroPageX)),
            (1, 2, 6) => Some(Instruction::Eor(AddressingModes::AbsoluteY)),
            (1, 2, 7) => Some(Instruction::Eor(AddressingModes::AbsoluteX)),
            (1, 3, 0) => Some(Instruction::Adc(AddressingModes::XIndexedZeroPageIndirect)),
            (1, 3, 1) => Some(Instruction::Adc(AddressingModes::ZeroPage)),
            (1, 3, 2) => Some(Instruction::Adc(AddressingModes::Immediate)),
            (1, 3, 3) => Some(Instruction::Adc(AddressingModes::Absolute)),
            (1, 3, 4) => Some(Instruction::Adc(AddressingModes::ZeroPageIndirectYPaged)),
            (1, 3, 5) => Some(Instruction::Adc(AddressingModes::ZeroPageX)),
            (1, 3, 6) => Some(Instruction::Adc(AddressingModes::AbsoluteY)),
            (1, 3, 7) => Some(Instruction::Adc(AddressingModes::AbsoluteX)),
            (1, 4, 0) => Some(Instruction::St(AddressingModes::XIndexedZeroPageIndirect, LoadRegisters::A)),
            (1, 4, 1) => Some(Instruction::St(AddressingModes::ZeroPage, LoadRegisters::A)),
            (1, 4, 3) => Some(Instruction::St(AddressingModes::Absolute, LoadRegisters::A)),
            (1, 4, 4) => Some(Instruction::St(AddressingModes::ZeroPageIndirectYPaged, LoadRegisters::A)),
            (1, 4, 5) => Some(Instruction::St(AddressingModes::ZeroPageX, LoadRegisters::A)),
            (1, 4, 6) => Some(Instruction::St(AddressingModes::AbsoluteY, LoadRegisters::A)),
            (1, 4, 7) => Some(Instruction::St(AddressingModes::AbsoluteX, LoadRegisters::A)),
            (1, 5, 0) => Some(Instruction::Ld(AddressingModes::XIndexedZeroPageIndirect, LoadRegisters::A)),
            (1, 5, 1) => Some(Instruction::Ld(AddressingModes::ZeroPage, LoadRegisters::A)),
            (1, 5, 2) => Some(Instruction::Ld(AddressingModes::Immediate, LoadRegisters::A)),
            (1, 5, 3) => Some(Instruction::Ld(AddressingModes::Absolute, LoadRegisters::A)),
            (1, 5, 4) => Some(Instruction::Ld(AddressingModes::ZeroPageIndirectYPaged, LoadRegisters::A)),
            (1, 5, 5) => Some(Instruction::Ld(AddressingModes::ZeroPageX, LoadRegisters::A)),
            (1, 5, 6) => Some(Instruction::Ld(AddressingModes::AbsoluteY, LoadRegisters::A)),
            (1, 5, 7) => Some(Instruction::Ld(AddressingModes::AbsoluteX, LoadRegisters::A)),
            (1, 6, 0) => Some(Instruction::Cmp(AddressingModes::XIndexedZeroPageIndirect)),
            (1, 6, 1) => Some(Instruction::Cmp(AddressingModes::ZeroPage)),
            (1, 6, 2) => Some(Instruction::Cmp(AddressingModes::Immediate)),
            (1, 6, 3) => Some(Instruction::Cmp(AddressingModes::Absolute)),
            (1, 6, 4) => Some(Instruction::Cmp(AddressingModes::ZeroPageIndirectYPaged)),
            (1, 6, 5) => Some(Instruction::Cmp(AddressingModes::ZeroPageX)),
            (1, 6, 6) => Some(Instruction::Cmp(AddressingModes::AbsoluteY)),
            (1, 6, 7) => Some(Instruction::Cmp(AddressingModes::AbsoluteX)),
            (1, 7, 0) => Some(Instruction::Sbc(AddressingModes::XIndexedZeroPageIndirect)),
            (1, 7, 1) => Some(Instruction::Sbc(AddressingModes::ZeroPage)),
            (1, 7, 2) => Some(Instruction::Sbc(AddressingModes::Immediate)),
            (1, 7, 3) => Some(Instruction::Sbc(AddressingModes::Absolute)),
            (1, 7, 4) => Some(Instruction::Sbc(AddressingModes::ZeroPageIndirectYPaged)),
            (1, 7, 5) => Some(Instruction::Sbc(AddressingModes::ZeroPageX)),
            (1, 7, 6) => Some(Instruction::Sbc(AddressingModes::AbsoluteY)),
            (1, 7, 7) => Some(Instruction::Sbc(AddressingModes::AbsoluteX)),
            (2, 0, 1) => Some(Instruction::Asl(AddressingModes::ZeroPage)),
            (2, 0, 2) => Some(Instruction::Asl(AddressingModes::Accumulator)),
            (2, 0, 3) => Some(Instruction::Asl(AddressingModes::Absolute)),
            (2, 0, 5) => Some(Instruction::Asl(AddressingModes::ZeroPageX)),
            (2, 0, 7) => Some(Instruction::Asl(AddressingModes::AbsoluteX)),
            (2, 1, 1) => Some(Instruction::Rol(AddressingModes::ZeroPage)),
            (2, 1, 2) => Some(Instruction::Rol(AddressingModes::Accumulator)),
            (2, 1, 3) => Some(Instruction::Rol(AddressingModes::Absolute)),
            (2, 1, 5) => Some(Instruction::Rol(AddressingModes::ZeroPageX)),
            (2, 1, 7) => Some(Instruction::Rol(AddressingModes::AbsoluteX)),
            (2, 2, 1) => Some(Instruction::Lsr(AddressingModes::ZeroPage)),
            (2, 2, 2) => Some(Instruction::Lsr(AddressingModes::Accumulator)),
            (2, 2, 3) => Some(Instruction::Lsr(AddressingModes::Absolute)),
            (2, 2, 5) => Some(Instruction::Lsr(AddressingModes::ZeroPageX)),
            (2, 2, 7) => Some(Instruction::Lsr(AddressingModes::AbsoluteX)),
            (2, 3, 1) => Some(Instruction::Ror(AddressingModes::ZeroPage)),
            (2, 3, 2) => Some(Instruction::Ror(AddressingModes::Accumulator)),
            (2, 3, 3) => Some(Instruction::Ror(AddressingModes::Absolute)),
            (2, 3, 5) => Some(Instruction::Ror(AddressingModes::ZeroPageX)),
            (2, 3, 7) => Some(Instruction::Ror(AddressingModes::AbsoluteX)),
            (2, 4, 1) => Some(Instruction::St(AddressingModes::ZeroPage, LoadRegisters::X)),
            (2, 4, 2) => Some(Instruction::Txa),
            (2, 4, 3) => Some(Instruction::St(AddressingModes::Absolute, LoadRegisters::X)),
            (2, 4, 5) => Some(Instruction::St(AddressingModes::ZeroPageY, LoadRegisters::X)),
            (2, 4, 6) => Some(Instruction::Txs),
            (2, 5, 0) => Some(Instruction::Ld(AddressingModes::Immediate, LoadRegisters::X)),
            (2, 5, 1) => Some(Instruction::Ld(AddressingModes::ZeroPage, LoadRegisters::X)),
            (2, 5, 2) => Some(Instruction::Tax),
            (2, 5, 3) => Some(Instruction::Ld(AddressingModes::Absolute, LoadRegisters::X)),
            (2, 5, 5) => Some(Instruction::Ld(AddressingModes::ZeroPageY, LoadRegisters::X)),
            (2, 5, 6) => Some(Instruction::Tsx),
            (2, 5, 7) => Some(Instruction::Ld(AddressingModes::AbsoluteY, LoadRegisters::X)),
            (2, 6, 1) => Some(Instruction::Dec(AddressingModes::ZeroPage)),
            (2, 6, 2) => Some(Instruction::Dex),
            (2, 6, 3) => Some(Instruction::Dec(AddressingModes::Absolute)),
            (2, 6, 5) => Some(Instruction::Dec(AddressingModes::ZeroPageX)),
            (2, 6, 7) => Some(Instruction::Dec(AddressingModes::AbsoluteX)),
            (2, 7, 1) => Some(Instruction::Inc(AddressingModes::ZeroPage)),
            (2, 7, 2) => Some(Instruction::Nop),
            (2, 7, 3) => Some(Instruction::Inc(AddressingModes::Absolute)),
            (2, 7, 5) => Some(Instruction::Inc(AddressingModes::ZeroPageX)),
            (2, 7, 7) => Some(Instruction::Inc(AddressingModes::AbsoluteX)),
            _ => None,
    }
}

} // verus!
