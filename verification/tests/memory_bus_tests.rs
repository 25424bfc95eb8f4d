use nes_emulator::bus::Bus;
use nes_emulator::memory::Memory;

fn nrom_image(program: &[u8]) -> Vec<u8> {
    let mut rom = vec![0x4E, 0x45, 0x53, 0x1A, 1, 1, 0, 0, 0, 0, 0, 0, 0, 0, 0, 0];
    let mut prg = vec![0xEAu8; 16384];
    prg[..program.len()].copy_from_slice(program);
    prg[0x3FFC] = 0x00;
    prg[0x3FFD] = 0x80;
    rom.extend_from_slice(&prg);
    rom.extend_from_slice(&vec![0u8; 8192]);
    rom
}

#[test]
fn ram_reads_back_through_every_mirror() {
    let mut m = Memory::new();
    m.write(0x0123, 0xAB);
    assert_eq!(m.read(0x0123), 0xAB);
    assert_eq!(m.read(0x0923), 0xAB);
    assert_eq!(m.read(0x1123), 0xAB);
    assert_eq!(m.read(0x1923), 0xAB);
    assert_eq!(m.read(0x0124), 0);
}

#[test]
fn ram_ignores_addresses_past_its_window() {
    let mut m = Memory::new();
    m.write(0x2000, 7);
    assert_eq!(m.read(0x2000), 0);
    assert_eq!(m.read(0x0000), 0);
}

#[test]
fn bus_ram_and_work_ram_round_trip() {
    let mut bus = Bus::new();
    bus.write(0x0005, 0x42);
    assert_eq!(bus.read(0x0805), 0x42);
    bus.write(0x6004, 0x41);
    assert_eq!(bus.read(0x6004), 0x41);
    assert_eq!(bus.read(0x7FFF), 0);
}

#[test]
fn bus_reads_cartridge_space() {
    let mut bus = Bus::new();
    let rom = nrom_image(&[0xA9, 0x05]);
    bus.load_rom(&rom);
    assert_eq!(bus.read(0x8000), 0xA9);
    assert_eq!(bus.read(0x8001), 0x05);
    // a single 16 KiB bank is mirrored at 0xC000
    assert_eq!(bus.read(0xC000), 0xA9);
    assert_eq!(bus.read(0xFFFD), 0x80);
}

#[test]
fn bus_unmapped_addresses_read_zero() {
    let mut bus = Bus::new();
    assert_eq!(bus.read(0x4000), 0);
    assert_eq!(bus.read(0x5000), 0);
}

#[test]
fn poll_nmi_acknowledges() {
    let mut bus = Bus::new();
    assert!(!bus.poll_nmi());
    bus.nmi = true;
    assert!(bus.poll_nmi());
    assert!(!bus.poll_nmi());
}

#[test]
fn controller_through_the_bus() {
    let mut bus = Bus::new();
    bus.input.press(nes_emulator::input::KEY_K); // A
    bus.input.press(nes_emulator::input::KEY_RETURN); // Start
    bus.write(0x4016, 1);
    bus.write(0x4016, 0);
    let bits: Vec<u8> = (0..10).map(|_| bus.read(0x4016)).collect();
    assert_eq!(bits, vec![1, 0, 0, 1, 0, 0, 0, 0, 1, 1]);
}

#[test]
fn oam_dma_copies_a_page() {
    let mut bus = Bus::new();
    for i in 0..256u16 {
        bus.write(0x0200 + i, (i as u8).wrapping_mul(3));
    }
    bus.write(0x4014, 0x02);
    for i in 0..256usize {
        assert_eq!(bus.ppu.oam_ram[i], (i as u8).wrapping_mul(3));
    }
}

#[test]
fn vblank_raises_nmi_when_enabled() {
    let mut bus = Bus::new();
    let rom = nrom_image(&[]);
    bus.load_rom(&rom);
    bus.write(0x2000, 0x80); // NMI on vblank
    // 241 lines of 341 dots reach line 241, dot 1 after one more dot
    bus.step_ppu(27400);
    assert!(bus.poll_nmi());
    assert!(!bus.poll_nmi());
    assert!(bus.ppu.frame_complete);
    // PPUSTATUS has the vblank flag, and reading it clears it
    let status = bus.read(0x2002);
    assert_eq!(status & 0x80, 0x80);
    assert_eq!(bus.read(0x2002) & 0x80, 0);
}

#[test]
fn no_nmi_when_disabled() {
    let mut bus = Bus::new();
    let rom = nrom_image(&[]);
    bus.load_rom(&rom);
    bus.step_ppu(27400);
    assert!(!bus.poll_nmi());
    assert_eq!(bus.read(0x2002) & 0x80, 0x80);
}
