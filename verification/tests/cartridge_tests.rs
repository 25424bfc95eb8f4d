use nes_emulator::cartridge::{Cartridge, Mapper, Mapper0, Mapper1, MapperBoard, Mirroring};

fn header(prg_banks: u8, chr_banks: u8, flags6: u8, flags7: u8) -> Vec<u8> {
    vec![0x4E, 0x45, 0x53, 0x1A, prg_banks, chr_banks, flags6, flags7, 0, 0, 0, 0, 0, 0, 0, 0]
}

fn image(prg_banks: u8, chr_banks: u8, flags6: u8, flags7: u8) -> Vec<u8> {
    let mut rom = header(prg_banks, chr_banks, flags6, flags7);
    if flags6 & 0x04 != 0 {
        rom.extend_from_slice(&vec![0xEEu8; 512]);
    }
    for i in 0..(prg_banks as usize * 16384) {
        rom.push((i / 16384) as u8 + 1);
    }
    for i in 0..(chr_banks as usize * 8192) {
        rom.push((i % 251) as u8);
    }
    rom
}

fn err_of(bytes: &[u8]) -> String {
    match Cartridge::load(bytes) {
        Ok(_) => panic!("expected an error"),
        Err(e) => e,
    }
}

#[test]
fn load_rejects_short_or_bad_header() {
    assert_eq!(err_of(&[0x4E, 0x45, 0x53]), "Invalid iNES header");
    let mut bad = image(1, 1, 0, 0);
    bad[3] = 0x1B;
    assert_eq!(err_of(&bad), "Invalid iNES header");
}

#[test]
fn load_rejects_truncated_file() {
    let mut rom = image(2, 1, 0, 0);
    rom.pop();
    assert_eq!(err_of(&rom), "File truncated: actual length is smaller than header specification");
    // a trainer moves the data 512 bytes further
    let mut with_trainer = image(1, 0, 0x04, 0);
    with_trainer.truncate(16 + 512 + 16383);
    assert_eq!(
        err_of(&with_trainer),
        "File truncated: actual length is smaller than header specification"
    );
}

#[test]
fn load_rejects_unsupported_mappers() {
    assert_eq!(err_of(&image(1, 1, 0x40, 0x00)), "Unsupported Mapper ID: 4");
    assert_eq!(err_of(&image(1, 1, 0x20, 0x40)), "Unsupported Mapper ID: 66");
    assert_eq!(err_of(&image(1, 1, 0xF0, 0xF0)), "Unsupported Mapper ID: 255");
}

#[test]
fn load_nrom_with_chr_rom() {
    let rom = image(2, 1, 0x01, 0);
    let c = Cartridge::load(&rom).unwrap();
    assert!(matches!(c.mirroring, Mirroring::Vertical));
    match &c.mapper {
        Some(MapperBoard::Nrom(m)) => {
            assert_eq!(m.cpu_read(0x8000), 1);
            assert_eq!(m.cpu_read(0xC000), 2);
            assert_eq!(m.ppu_read(0x0005), 5);
            assert_eq!(m.cpu_read(0x7000), 0);
        }
        _ => panic!("expected NROM"),
    }
}

#[test]
fn load_with_trainer_and_chr_ram() {
    let rom = image(1, 0, 0x04 | 0x08, 0);
    let mut c = Cartridge::load(&rom).unwrap();
    assert!(matches!(c.mirroring, Mirroring::FourScreen));
    // the trainer bytes are skipped
    assert_eq!(c.cpu_read(0x8000), 1);
    // no CHR banks: 8 KiB of writable CHR RAM
    assert_eq!(c.ppu_read(0x1234), 0);
    c.ppu_write(0x1234, 0x99);
    assert_eq!(c.ppu_read(0x1234), 0x99);
}

#[test]
fn chr_rom_ignores_writes() {
    let rom = image(1, 1, 0, 0);
    let mut c = Cartridge::load(&rom).unwrap();
    let before = c.ppu_read(0x0010);
    c.ppu_write(0x0010, before.wrapping_add(1));
    assert_eq!(c.ppu_read(0x0010), before);
}

#[test]
fn nrom_128_mirrors_its_bank() {
    let prg: Vec<u8> = (0..16384u32).map(|i| (i % 256) as u8).collect();
    let m = Mapper0::new(prg, vec![0u8; 8192], true);
    for a in [0x8000u16, 0x8123, 0xBFFF] {
        assert_eq!(m.cpu_read(a), m.cpu_read(a + 0x4000));
    }
    assert_eq!(m.cpu_read(0x8123), 0x23);
}

#[test]
fn nametable_mirroring_maps() {
    let mut c = Cartridge::new();
    c.mirroring = Mirroring::Horizontal;
    assert_eq!(c.map_nametable_address(0x2000), c.map_nametable_address(0x2400));
    assert_eq!(c.map_nametable_address(0x2805), 0x405);
    assert_eq!(c.map_nametable_address(0x2C05), 0x405);
    c.mirroring = Mirroring::Vertical;
    assert_eq!(c.map_nametable_address(0x2805), 0x005);
    assert_eq!(c.map_nametable_address(0x2405), 0x405);
    c.mirroring = Mirroring::SingleScreenUpper;
    assert_eq!(c.map_nametable_address(0x2000), 0x400);
    c.mirroring = Mirroring::FourScreen;
    assert_eq!(c.map_nametable_address(0x2C01), 0x401);
}

fn serial_write(m: &mut Mapper1, address: u16, value: u8) {
    for k in 0..5 {
        m.cpu_write(address, (value >> k) & 1);
    }
}

#[test]
fn mmc1_power_on_fixes_last_bank() {
    let prg: Vec<u8> = (0..4 * 16384u32).map(|i| (i / 16384) as u8).collect();
    let m = Mapper1::new(prg, vec![0u8; 8192], true);
    assert_eq!(m.cpu_read(0x8000), 0);
    assert_eq!(m.cpu_read(0xC000), 3);
    assert!(matches!(m.mirroring(), Some(Mirroring::SingleScreenLower)));
}

#[test]
fn mmc1_serial_port_loads_registers() {
    let prg: Vec<u8> = (0..4 * 16384u32).map(|i| (i / 16384) as u8).collect();
    let mut m = Mapper1::new(prg, vec![0u8; 8192], true);
    // PRG bank 2 at 0x8000 (mode 3)
    serial_write(&mut m, 0xE000, 2);
    assert_eq!(m.cpu_read(0x8000), 2);
    assert_eq!(m.cpu_read(0xFFFF), 3);
    // control: vertical mirroring, PRG mode 2 (first bank fixed)
    serial_write(&mut m, 0x8000, 0b01010);
    assert!(matches!(m.mirroring(), Some(Mirroring::Vertical)));
    assert_eq!(m.cpu_read(0x8000), 0);
    assert_eq!(m.cpu_read(0xC000), 2);
    // control: horizontal, 32 KiB mode, bank pair 2/3
    serial_write(&mut m, 0x8000, 0b00011);
    assert!(matches!(m.mirroring(), Some(Mirroring::Horizontal)));
    assert_eq!(m.cpu_read(0x8000), 2);
    assert_eq!(m.cpu_read(0xC000), 3);
}

#[test]
fn mmc1_reset_write_restores_mode_3() {
    let prg: Vec<u8> = (0..4 * 16384u32).map(|i| (i / 16384) as u8).collect();
    let mut m = Mapper1::new(prg, vec![0u8; 8192], true);
    serial_write(&mut m, 0x8000, 0b00000);
    assert_eq!(m.cpu_read(0xC000), 1);
    // two bits in, then a reset
    m.cpu_write(0x8000, 1);
    m.cpu_write(0x8000, 1);
    m.cpu_write(0x8000, 0x80);
    assert_eq!(m.cpu_read(0xC000), 3);
    assert!(matches!(m.mirroring(), Some(Mirroring::SingleScreenLower)));
}

#[test]
fn mmc1_work_ram_and_chr_banks() {
    let prg = vec![0u8; 2 * 16384];
    let chr: Vec<u8> = (0..4 * 4096u32).map(|i| (i / 4096) as u8 + 10).collect();
    let mut m = Mapper1::new(prg, chr, false);
    m.cpu_write(0x6010, 0x55);
    assert_eq!(m.cpu_read(0x6010), 0x55);
    // 4 KiB CHR mode, bank 2 at 0x0000, bank 3 at 0x1000
    serial_write(&mut m, 0x8000, 0b10000);
    serial_write(&mut m, 0xA000, 2);
    serial_write(&mut m, 0xC000, 3);
    assert_eq!(m.ppu_read(0x0000), 12);
    assert_eq!(m.ppu_read(0x1000), 13);
    assert_eq!(m.ppu_read(0x2000), 0);
    // CHR ROM is not written
    m.ppu_write(0x0000, 1);
    assert_eq!(m.ppu_read(0x0000), 12);
}

#[test]
fn mmc1_serial_port_takes_bit_zero_of_whole_bytes() {
    let prg: Vec<u8> = (0..4 * 16384u32).map(|i| (i / 16384) as u8).collect();
    let mut m = Mapper1::new(prg, vec![0u8; 8192], true);
    // the usual LSR A loop writes the whole shifted byte each time; only
    // bit 0 of each write counts, and the last address picks PRG bank
    let value: u8 = 0x7A; // low five bits 0b11010 = 26, bank 26 % 4 = 2
    for k in 0..5 {
        let address = if k < 4 { 0x8000 } else { 0xE000 };
        m.cpu_write(address, value >> k);
    }
    assert_eq!(m.cpu_read(0x8000), 2);
    assert_eq!(m.cpu_read(0xC000), 3);
}
