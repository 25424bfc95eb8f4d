use nes_emulator::bus::Bus;
use nes_emulator::cpu::decode::{decode, Instruction};
use nes_emulator::cpu::registers::Registers;
use nes_emulator::cpu::{AddressingModes, LoadRegisters, CPU};
use nes_emulator::emulator::{Emulator, StepEvent};

/// An NROM image whose PRG starts with `program` (at 0x8000) and whose
/// reset, NMI and IRQ vectors point at 0x8000, 0x9000 and 0xA000.
fn image(program: &[u8], extra: &[(usize, &[u8])]) -> Vec<u8> {
    let mut rom = vec![0x4E, 0x45, 0x53, 0x1A, 1, 1, 0, 0, 0, 0, 0, 0, 0, 0, 0, 0];
    let mut prg = vec![0xEAu8; 16384];
    prg[..program.len()].copy_from_slice(program);
    for (at, bytes) in extra {
        prg[*at..*at + bytes.len()].copy_from_slice(bytes);
    }
    prg[0x3FFA] = 0x00;
    prg[0x3FFB] = 0x90;
    prg[0x3FFC] = 0x00;
    prg[0x3FFD] = 0x80;
    prg[0x3FFE] = 0x00;
    prg[0x3FFF] = 0xA0;
    rom.extend_from_slice(&prg);
    rom.extend_from_slice(&vec![0u8; 8192]);
    rom
}

fn boot(program: &[u8], extra: &[(usize, &[u8])]) -> Emulator {
    let mut e = Emulator::new();
    e.bus.load_rom(&image(program, extra));
    e.cpu.reset(&mut e.bus);
    e
}

fn run(e: &mut Emulator, steps: usize) {
    for _ in 0..steps {
        let ev = e.step();
        assert!(!matches!(ev, StepEvent::Unimplemented(_)));
    }
}

#[test]
fn reset_loads_the_vector() {
    let e = boot(&[], &[]);
    assert_eq!(e.cpu.registers.pc, 0x8000);
    assert_eq!(e.cpu.registers.sp, 0xFD);
    assert!(e.cpu.registers.interrupt_disable);
    assert_eq!(e.cpu.cycles, 2);
}

#[test]
fn lda_adc_sbc_arithmetic() {
    // LDA #$50; CLC; ADC #$50; -> 0xA0, V set, N set, C clear
    let mut e = boot(&[0xA9, 0x50, 0x18, 0x69, 0x50], &[]);
    run(&mut e, 3);
    let r = &e.cpu.registers;
    assert_eq!(r.a, 0xA0);
    assert!(r.overflow && r.negative && !r.carry && !r.zero);
    // SEC; SBC #$A0 -> 0, Z set, C set (no borrow)
    let mut e = boot(&[0xA9, 0xA0, 0x38, 0xE9, 0xA0], &[]);
    run(&mut e, 3);
    let r = &e.cpu.registers;
    assert_eq!(r.a, 0);
    assert!(r.zero && r.carry && !r.overflow);
    // CLC; SBC #$01 from 0 -> 0xFE with borrow
    let mut e = boot(&[0xA9, 0x00, 0x18, 0xE9, 0x01], &[]);
    run(&mut e, 3);
    assert_eq!(e.cpu.registers.a, 0xFE);
    assert!(!e.cpu.registers.carry);
}

#[test]
fn adc_carry_out() {
    // LDA #$FF; SEC; ADC #$01 -> 0x01 with carry
    let mut e = boot(&[0xA9, 0xFF, 0x38, 0x69, 0x01], &[]);
    run(&mut e, 3);
    assert_eq!(e.cpu.registers.a, 0x01);
    assert!(e.cpu.registers.carry && !e.cpu.registers.overflow);
}

#[test]
fn compares_set_flags() {
    // LDX #$10; CPX #$20 -> borrow, negative
    let mut e = boot(&[0xA2, 0x10, 0xE0, 0x20], &[]);
    run(&mut e, 2);
    assert!(!e.cpu.registers.carry && e.cpu.registers.negative && !e.cpu.registers.zero);
    // LDY #$20; CPY #$20 -> equal
    let mut e = boot(&[0xA0, 0x20, 0xC0, 0x20], &[]);
    run(&mut e, 2);
    assert!(e.cpu.registers.carry && e.cpu.registers.zero);
}

#[test]
fn stores_and_loads_through_memory() {
    // LDA #$37; STA $0200; LDX #$01; LDA #$00; LDA $01FF,X
    let mut e = boot(&[0xA9, 0x37, 0x8D, 0x00, 0x02, 0xA2, 0x01, 0xA9, 0x00, 0xBD, 0xFF, 0x01], &[]);
    run(&mut e, 5);
    assert_eq!(e.cpu.registers.a, 0x37);
    assert_eq!(e.bus.read(0x0200), 0x37);
}

#[test]
fn indexed_load_pays_for_page_crossing() {
    // LDX #$01; LDA $01FF,X (crosses) ; LDA $0100,X (does not)
    let mut e = boot(&[0xA2, 0x01, 0xBD, 0xFF, 0x01, 0xBD, 0x00, 0x01], &[]);
    run(&mut e, 1);
    let before = e.cpu.cycles;
    run(&mut e, 1);
    assert_eq!(e.cpu.cycles - before, 5);
    let before = e.cpu.cycles;
    run(&mut e, 1);
    assert_eq!(e.cpu.cycles - before, 4);
}

#[test]
fn jsr_and_rts_return_after_the_call() {
    // JSR $8010; LDX #$05 ... at $8010: LDY #$07; RTS
    let mut e = boot(&[0x20, 0x10, 0x80, 0xA2, 0x05], &[(0x10, &[0xA0, 0x07, 0x60])]);
    run(&mut e, 1);
    assert_eq!(e.cpu.registers.pc, 0x8010);
    assert_eq!(e.cpu.registers.sp, 0xFB);
    run(&mut e, 3);
    assert_eq!(e.cpu.registers.y, 0x07);
    assert_eq!(e.cpu.registers.x, 0x05);
    assert_eq!(e.cpu.registers.sp, 0xFD);
    assert_eq!(e.cpu.registers.pc, 0x8005);
}

#[test]
fn pha_pla_and_php_plp_restore() {
    // LDA #$80 (N); PHA; PHP; LDA #$00 (Z); PLP; PLA
    let mut e = boot(&[0xA9, 0x80, 0x48, 0x08, 0xA9, 0x00, 0x28, 0x68], &[]);
    run(&mut e, 4);
    assert!(e.cpu.registers.zero);
    run(&mut e, 1);
    assert!(e.cpu.registers.negative && !e.cpu.registers.zero);
    run(&mut e, 1);
    assert_eq!(e.cpu.registers.a, 0x80);
    assert_eq!(e.cpu.registers.sp, 0xFD);
    // the status byte pushed by PHP has B and bit 5 set
    assert_eq!(e.bus.read(0x01FC) & 0x30, 0x30);
}

#[test]
fn brk_and_rti() {
    // CLI; BRK; pad; LDX #$09 ... IRQ handler at $A000: RTI
    let mut e = boot(&[0x58, 0x00, 0xFF, 0xA2, 0x09], &[(0x2000, &[0x40])]);
    run(&mut e, 2);
    assert_eq!(e.cpu.registers.pc, 0xA000);
    assert!(e.cpu.registers.interrupt_disable);
    run(&mut e, 1);
    assert_eq!(e.cpu.registers.pc, 0x8003);
    assert!(!e.cpu.registers.interrupt_disable);
    run(&mut e, 1);
    assert_eq!(e.cpu.registers.x, 0x09);
}

#[test]
fn branches_taken_and_not() {
    // LDX #$03; DEX; BNE -3 (back to DEX); LDY #$01
    let mut e = boot(&[0xA2, 0x03, 0xCA, 0xD0, 0xFD, 0xA0, 0x01], &[]);
    run(&mut e, 1 + 2 * 3 + 1);
    assert_eq!(e.cpu.registers.x, 0);
    assert_eq!(e.cpu.registers.y, 1);
    assert_eq!(e.cpu.registers.pc, 0x8007);
}

#[test]
fn shifts_and_rotates() {
    // LDA #$81; ASL A -> 0x02, C; ROL A -> 0x05; LSR A -> 0x02, C; ROR A -> 0x81
    let mut e = boot(&[0xA9, 0x81, 0x0A, 0x2A, 0x4A, 0x6A], &[]);
    run(&mut e, 2);
    assert_eq!(e.cpu.registers.a, 0x02);
    assert!(e.cpu.registers.carry);
    run(&mut e, 1);
    assert_eq!(e.cpu.registers.a, 0x05);
    assert!(!e.cpu.registers.carry);
    run(&mut e, 1);
    assert_eq!(e.cpu.registers.a, 0x02);
    assert!(e.cpu.registers.carry);
    run(&mut e, 1);
    assert_eq!(e.cpu.registers.a, 0x81);
    assert!(e.cpu.registers.negative);
}

#[test]
fn inc_dec_memory() {
    // INC $10; INC $10; DEC $11 (0 -> FF)
    let mut e = boot(&[0xE6, 0x10, 0xE6, 0x10, 0xC6, 0x11], &[]);
    run(&mut e, 3);
    assert_eq!(e.bus.read(0x10), 2);
    assert_eq!(e.bus.read(0x11), 0xFF);
    assert!(e.cpu.registers.negative);
}

#[test]
fn jmp_indirect_wraps_within_the_page() {
    // pointer at $02FF: low byte at $02FF, high byte from $0200
    // LDA #$34; STA $02FF; LDA #$12; STA $0200; JMP ($02FF)
    let mut e = boot(&[0xA9, 0x34, 0x8D, 0xFF, 0x02, 0xA9, 0x12, 0x8D, 0x00, 0x02, 0x6C, 0xFF, 0x02], &[]);
    run(&mut e, 5);
    assert_eq!(e.cpu.registers.pc, 0x1234);
}

#[test]
fn transfers_and_bit() {
    // LDA #$C0; TAX; TXS; TSX; STA $20; LDA #$00; BIT $20
    let mut e = boot(&[0xA9, 0xC0, 0xAA, 0x9A, 0xBA, 0x85, 0x20, 0xA9, 0x00, 0x24, 0x20], &[]);
    run(&mut e, 7);
    assert_eq!(e.cpu.registers.x, 0xC0);
    assert_eq!(e.cpu.registers.sp, 0xC0);
    assert!(e.cpu.registers.negative && e.cpu.registers.overflow && e.cpu.registers.zero);
}

#[test]
fn nmi_is_serviced_and_returns() {
    // handler at $9000: INX; RTI
    let mut e = boot(&[0xEA, 0xEA], &[(0x1000, &[0xE8, 0x40])]);
    e.bus.nmi = true;
    assert!(matches!(e.step(), StepEvent::Nmi));
    assert_eq!(e.cpu.registers.pc, 0x9000);
    run(&mut e, 2);
    assert_eq!(e.cpu.registers.x, 1);
    assert_eq!(e.cpu.registers.pc, 0x8000);
}

#[test]
fn irq_waits_for_interrupts_enabled() {
    let mut e = boot(&[0xEA, 0x58, 0xEA], &[(0x2000, &[0x40])]);
    e.cpu.irq = true;
    assert!(matches!(e.step(), StepEvent::Executed(0xEA)));
    assert!(matches!(e.step(), StepEvent::Executed(0x58)));
    assert!(matches!(e.step(), StepEvent::Irq));
    assert_eq!(e.cpu.registers.pc, 0xA000);
}

#[test]
fn unofficial_opcodes_are_reported() {
    let mut e = boot(&[0x02], &[]);
    let before = e.cpu.registers.a;
    assert!(matches!(e.step(), StepEvent::Unimplemented(0x02)));
    assert_eq!(e.cpu.registers.a, before);
    assert_eq!(e.cpu.registers.pc, 0x8001);
}

#[test]
fn decode_official_opcodes() {
    assert!(matches!(decode(0xA9), Some(Instruction::Ld(AddressingModes::Immediate, LoadRegisters::A))));
    assert!(matches!(decode(0x00), Some(Instruction::Brk)));
    assert!(matches!(decode(0x6C), Some(Instruction::Jmp(AddressingModes::Indirect))));
    assert!(matches!(decode(0x96), Some(Instruction::St(AddressingModes::ZeroPageY, LoadRegisters::X))));
    assert!(matches!(decode(0xBE), Some(Instruction::Ld(AddressingModes::AbsoluteY, LoadRegisters::X))));
    assert!(matches!(decode(0x71), Some(Instruction::Adc(AddressingModes::ZeroPageIndirectYPaged))));
    assert!(matches!(decode(0x89), None));
    let count = (0..=255u8).filter(|op| decode(*op).is_some()).count();
    assert_eq!(count, 151);
}

#[test]
fn execute_reports_implemented() {
    let mut cpu = CPU::new();
    let mut bus = Bus::new();
    bus.load_rom(&image(&[0x05], &[]));
    cpu.registers.pc = 0x8000;
    assert!(cpu.execute(0xA9, &mut bus));
    assert_eq!(cpu.registers.a, 0x05);
    assert!(!cpu.execute(0xFF, &mut bus));
}

#[test]
fn status_byte_layout() {
    let mut r = Registers::new();
    assert_eq!(r.get_status(), 0x20);
    r.negative = true;
    r.carry = true;
    r.breakins = true;
    assert_eq!(r.get_status(), 0xB1);
    r.set_a(3);
    r.set_x(4);
    r.set_y(5);
    r.set_pc(0x1234);
    r.set_sp(0x42);
    assert_eq!((r.get_a(), r.get_x(), r.get_y(), r.get_pc(), r.get_sp()), (3, 4, 5, 0x1234, 0x42));
}

#[test]
fn operand_addressing_modes() {
    let mut cpu = CPU::new();
    let mut bus = Bus::new();
    bus.load_rom(&image(&[0x80, 0x10, 0x20], &[]));
    bus.write(0x0085, 0x00);
    bus.write(0x0086, 0x03);
    cpu.registers.pc = 0x8000;
    cpu.registers.x = 5;
    let r = cpu.get_operand_address(&AddressingModes::XIndexedZeroPageIndirect, &mut bus);
    assert_eq!(r.address, 0x0300);
    let r = cpu.get_operand_address(&AddressingModes::ZeroPageX, &mut bus);
    assert_eq!(r.address, 0x15);
    let r = cpu.get_operand_address(&AddressingModes::Relative, &mut bus);
    assert_eq!(r.address, 0x8003 + 0x20);
    assert_eq!(cpu.fetch(&mut bus), 0xEA);
    cpu.tick();
    assert_eq!(cpu.cycles, 3 + 1 + 1 + 1 + 1);
}

/// Cycles that one instruction at the start of the program takes,
/// opcode fetch included.
fn cycles_of(program: &[u8], setup_steps: usize) -> u32 {
    let mut e = boot(program, &[]);
    run(&mut e, setup_steps);
    let before = e.cpu.cycles;
    run(&mut e, 1);
    e.cpu.cycles - before
}

#[test]
fn documented_cycle_counts() {
    // implied instructions: 2
    for op in [0x18u8, 0x38, 0x58, 0x78, 0xB8, 0xD8, 0xF8, 0xEA, 0xAA, 0xE8] {
        assert_eq!(cycles_of(&[op], 0), 2, "opcode {op:02X}");
    }
    // LDA zp,X: 4; LDX zp,Y: 4; LDA (zp,X): 6; LDA (zp),Y: 5
    assert_eq!(cycles_of(&[0xB5, 0x10], 0), 4);
    assert_eq!(cycles_of(&[0xB6, 0x10], 0), 4);
    assert_eq!(cycles_of(&[0xA1, 0x10], 0), 6);
    assert_eq!(cycles_of(&[0xB1, 0x10], 0), 5);
    // STA zp,X: 4; STA (zp,X): 6; STA abs,X: 5
    assert_eq!(cycles_of(&[0x95, 0x10], 0), 4);
    assert_eq!(cycles_of(&[0x81, 0x10], 0), 6);
    assert_eq!(cycles_of(&[0x9D, 0x00, 0x02], 0), 5);
    // INC zp,X: 6; INC abs,X: 7; ASL A: 2
    assert_eq!(cycles_of(&[0xF6, 0x10], 0), 6);
    assert_eq!(cycles_of(&[0xFE, 0x00, 0x02], 0), 7);
    assert_eq!(cycles_of(&[0x0A], 0), 2);
    // JSR: 6; RTS: 6 (the JSR is run first)
    let mut e = boot(&[0x20, 0x00, 0x81], &[(0x100, &[0x60])]);
    let before = e.cpu.cycles;
    run(&mut e, 1);
    assert_eq!(e.cpu.cycles - before, 6);
    let before = e.cpu.cycles;
    run(&mut e, 1);
    assert_eq!(e.cpu.cycles - before, 6);
    assert_eq!(e.cpu.registers.pc, 0x8003);
}

#[test]
fn rti_takes_six_cycles() {
    // BRK (7) then RTI at the IRQ vector (6)
    let mut e = boot(&[0x00, 0xEA], &[(0x2000, &[0x40])]);
    let before = e.cpu.cycles;
    run(&mut e, 1);
    assert_eq!(e.cpu.cycles - before, 7);
    let before = e.cpu.cycles;
    run(&mut e, 1);
    assert_eq!(e.cpu.cycles - before, 6);
    assert_eq!(e.cpu.registers.pc, 0x8002);
}

#[test]
fn oam_dma_stalls_the_cpu() {
    // LDA #$02; STA $4014
    let mut e = boot(&[0xA9, 0x02, 0x8D, 0x14, 0x40], &[]);
    run(&mut e, 1);
    let before = e.cpu.cycles;
    run(&mut e, 1);
    // the write is cycle 4 of the STA; the DMA then starts on an odd or even cycle
    let parity = (before + 4) % 2;
    assert_eq!(e.cpu.cycles - before, 4 + 513 + parity);
}

#[test]
fn programs_run_from_ram_without_a_cartridge() {
    let mut bus = Bus::new();
    bus.write(0x0000, 0xA0); // LDY #$02
    bus.write(0x0001, 0x02);
    bus.write(0x0002, 0xB6); // LDX $10,Y
    bus.write(0x0003, 0x10);
    bus.write(0x0012, 0x77);
    let mut cpu = CPU::new();
    let op = cpu.fetch(&mut bus);
    assert!(cpu.execute(op, &mut bus));
    let op = cpu.fetch(&mut bus);
    assert!(cpu.execute(op, &mut bus));
    assert_eq!(cpu.registers.x, 0x77);
    assert_eq!(cpu.registers.y, 0x02);
    assert_eq!(cpu.registers.pc, 4);
    assert_eq!(cpu.cycles, 2 + 4);
}

#[test]
fn test_port_collects_bytes() {
    // LDA #'H'; STA $6004; LDA #'i'; STA $6004
    let mut e = boot(&[0xA9, 0x48, 0x8D, 0x04, 0x60, 0xA9, 0x69, 0x8D, 0x04, 0x60], &[]);
    run(&mut e, 4);
    assert_eq!(e.bus.test_output, vec![0x48, 0x69]);
}

/// Every official opcode, by its byte, with the instruction and mode of
/// the 6502 reference table.
const OPCODE_TABLE: [(u8, &str); 151] = [
    (0x00, "Brk"),
    (0x01, "Ora(XIndexedZeroPageIndirect)"),
    (0x05, "Ora(ZeroPage)"),
    (0x06, "Asl(ZeroPage)"),
    (0x08, "Php"),
    (0x09, "Ora(Immediate)"),
    (0x0A, "Asl(Accumulator)"),
    (0x0D, "Ora(Absolute)"),
    (0x0E, "Asl(Absolute)"),
    (0x10, "Bpl"),
    (0x11, "Ora(ZeroPageIndirectYPaged)"),
    (0x15, "Ora(ZeroPageX)"),
    (0x16, "Asl(ZeroPageX)"),
    (0x18, "Clc"),
    (0x19, "Ora(AbsoluteY)"),
    (0x1D, "Ora(AbsoluteX)"),
    (0x1E, "Asl(AbsoluteX)"),
    (0x20, "Jsr"),
    (0x21, "And(XIndexedZeroPageIndirect)"),
    (0x24, "Bit(ZeroPage)"),
    (0x25, "And(ZeroPage)"),
    (0x26, "Rol(ZeroPage)"),
    (0x28, "Plp"),
    (0x29, "And(Immediate)"),
    (0x2A, "Rol(Accumulator)"),
    (0x2C, "Bit(Absolute)"),
    (0x2D, "And(Absolute)"),
    (0x2E, "Rol(Absolute)"),
    (0x30, "Bmi"),
    (0x31, "And(ZeroPageIndirectYPaged)"),
    (0x35, "And(ZeroPageX)"),
    (0x36, "Rol(ZeroPageX)"),
    (0x38, "Sec"),
    (0x39, "And(AbsoluteY)"),
    (0x3D, "And(AbsoluteX)"),
    (0x3E, "Rol(AbsoluteX)"),
    (0x40, "Rti"),
    (0x41, "Eor(XIndexedZeroPageIndirect)"),
    (0x45, "Eor(ZeroPage)"),
    (0x46, "Lsr(ZeroPage)"),
    (0x48, "Pha"),
    (0x49, "Eor(Immediate)"),
    (0x4A, "Lsr(Accumulator)"),
    (0x4C, "Jmp(Absolute)"),
    (0x4D, "Eor(Absolute)"),
    (0x4E, "Lsr(Absolute)"),
    (0x50, "Bvc"),
    (0x51, "Eor(ZeroPageIndirectYPaged)"),
    (0x55, "Eor(ZeroPageX)"),
    (0x56, "Lsr(ZeroPageX)"),
    (0x58, "Cli"),
    (0x59, "Eor(AbsoluteY)"),
    (0x5D, "Eor(AbsoluteX)"),
    (0x5E, "Lsr(AbsoluteX)"),
    (0x60, "Rts"),
    (0x61, "Adc(XIndexedZeroPageIndirect)"),
    (0x65, "Adc(ZeroPage)"),
    (0x66, "Ror(ZeroPage)"),
    (0x68, "Pla"),
    (0x69, "Adc(Immediate)"),
    (0x6A, "Ror(Accumulator)"),
    (0x6C, "Jmp(Indirect)"),
    (0x6D, "Adc(Absolute)"),
    (0x6E, "Ror(Absolute)"),
    (0x70, "Bvs"),
    (0x71, "Adc(ZeroPageIndirectYPaged)"),
    (0x75, "Adc(ZeroPageX)"),
    (0x76, "Ror(ZeroPageX)"),
    (0x78, "Sei"),
    (0x79, "Adc(AbsoluteY)"),
    (0x7D, "Adc(AbsoluteX)"),
    (0x7E, "Ror(AbsoluteX)"),
    (0x81, "St(XIndexedZeroPageIndirect, A)"),
    (0x84, "St(ZeroPage, Y)"),
    (0x85, "St(ZeroPage, A)"),
    (0x86, "St(ZeroPage, X)"),
    (0x88, "Dey"),
    (0x8A, "Txa"),
    (0x8C, "St(Absolute, Y)"),
    (0x8D, "St(Absolute, A)"),
    (0x8E, "St(Absolute, X)"),
    (0x90, "Bcc"),
    (0x91, "St(ZeroPageIndirectYPaged, A)"),
    (0x94, "St(ZeroPageX, Y)"),
    (0x95, "St(ZeroPageX, A)"),
    (0x96, "St(ZeroPageY, X)"),
    (0x98, "Tya"),
    (0x99, "St(AbsoluteY, A)"),
    (0x9A, "Txs"),
    (0x9D, "St(AbsoluteX, A)"),
    (0xA0, "Ld(Immediate, Y)"),
    (0xA1, "Ld(XIndexedZeroPageIndirect, A)"),
    (0xA2, "Ld(Immediate, X)"),
    (0xA4, "Ld(ZeroPage, Y)"),
    (0xA5, "Ld(ZeroPage, A)"),
    (0xA6, "Ld(ZeroPage, X)"),
    (0xA8, "Tay"),
    (0xA9, "Ld(Immediate, A)"),
    (0xAA, "Tax"),
    (0xAC, "Ld(Absolute, Y)"),
    (0xAD, "Ld(Absolute, A)"),
    (0xAE, "Ld(Absolute, X)"),
    (0xB0, "Bcs"),
    (0xB1, "Ld(ZeroPageIndirectYPaged, A)"),
    (0xB4, "Ld(ZeroPageX, Y)"),
    (0xB5, "Ld(ZeroPageX, A)"),
    (0xB6, "Ld(ZeroPageY, X)"),
    (0xB8, "Clv"),
    (0xB9, "Ld(AbsoluteY, A)"),
    (0xBA, "Tsx"),
    (0xBC, "Ld(AbsoluteX, Y)"),
    (0xBD, "Ld(AbsoluteX, A)"),
    (0xBE, "Ld(AbsoluteY, X)"),
    (0xC0, "Cpy(Immediate)"),
    (0xC1, "Cmp(XIndexedZeroPageIndirect)"),
    (0xC4, "Cpy(ZeroPage)"),
    (0xC5, "Cmp(ZeroPage)"),
    (0xC6, "Dec(ZeroPage)"),
    (0xC8, "Iny"),
    (0xC9, "Cmp(Immediate)"),
    (0xCA, "Dex"),
    (0xCC, "Cpy(Absolute)"),
    (0xCD, "Cmp(Absolute)"),
    (0xCE, "Dec(Absolute)"),
    (0xD0, "Bne"),
    (0xD1, "Cmp(ZeroPageIndirectYPaged)"),
    (0xD5, "Cmp(ZeroPageX)"),
    (0xD6, "Dec(ZeroPageX)"),
    (0xD8, "Cld"),
    (0xD9, "Cmp(AbsoluteY)"),
    (0xDD, "Cmp(AbsoluteX)"),
    (0xDE, "Dec(AbsoluteX)"),
    (0xE0, "Cpx(Immediate)"),
    (0xE1, "Sbc(XIndexedZeroPageIndirect)"),
    (0xE4, "Cpx(ZeroPage)"),
    (0xE5, "Sbc(ZeroPage)"),
    (0xE6, "Inc(ZeroPage)"),
    (0xE8, "Inx"),
    (0xE9, "Sbc(Immediate)"),
    (0xEA, "Nop"),
    (0xEC, "Cpx(Absolute)"),
    (0xED, "Sbc(Absolute)"),
    (0xEE, "Inc(Absolute)"),
    (0xF0, "Beq"),
    (0xF1, "Sbc(ZeroPageIndirectYPaged)"),
    (0xF5, "Sbc(ZeroPageX)"),
    (0xF6, "Inc(ZeroPageX)"),
    (0xF8, "Sed"),
    (0xF9, "Sbc(AbsoluteY)"),
    (0xFD, "Sbc(AbsoluteX)"),
    (0xFE, "Inc(AbsoluteX)"),
];

#[test]
fn decode_matches_the_opcode_table() {
    for op in 0..=255u8 {
        let expected = OPCODE_TABLE.iter().find(|(b, _)| *b == op).map(|(_, s)| s.to_string());
        let got = decode(op).map(|ins| format!("{:?}", ins));
        assert_eq!(got, expected, "opcode {op:02X}");
    }
}
