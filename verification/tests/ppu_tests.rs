use nes_emulator::cartridge::{Cartridge, Mirroring};
use nes_emulator::ppu::{PPU, NES_SYSTEM_PALETTE, SCREEN_HEIGHT, SCREEN_WIDTH};

fn chr_ram_cart() -> Cartridge {
    let mut rom = vec![0x4E, 0x45, 0x53, 0x1A, 1, 0, 0, 0, 0, 0, 0, 0, 0, 0, 0, 0];
    rom.extend_from_slice(&vec![0u8; 16384]);
    Cartridge::load(&rom).unwrap()
}

fn set_address(p: &mut PPU, c: &mut Cartridge, address: u16) {
    p.cpu_write(c, 0x2006, (address >> 8) as u8);
    p.cpu_write(c, 0x2006, address as u8);
}

#[test]
fn ppudata_writes_and_buffered_reads() {
    let mut c = chr_ram_cart();
    let mut p = PPU::new();
    set_address(&mut p, &mut c, 0x2000);
    p.cpu_write(&mut c, 0x2007, 0x11);
    p.cpu_write(&mut c, 0x2007, 0x22);
    set_address(&mut p, &mut c, 0x2000);
    // the first read returns the stale buffer, then the data lags by one
    let _stale = p.cpu_read(&c, 0x2007);
    assert_eq!(p.cpu_read(&c, 0x2007), 0x11);
    assert_eq!(p.cpu_read(&c, 0x2007), 0x22);
}

#[test]
fn ppudata_increment_of_32() {
    let mut c = chr_ram_cart();
    let mut p = PPU::new();
    p.cpu_write(&mut c, 0x2000, 0x04);
    set_address(&mut p, &mut c, 0x2000);
    p.cpu_write(&mut c, 0x2007, 0xAA);
    p.cpu_write(&mut c, 0x2007, 0xBB);
    assert_eq!(p.ppu_read(&c, 0x2000), 0xAA);
    assert_eq!(p.ppu_read(&c, 0x2020), 0xBB);
    assert_eq!(p.ppu_read(&c, 0x2001), 0);
}

#[test]
fn palette_reads_are_unbuffered_and_mirrored() {
    let mut c = chr_ram_cart();
    let mut p = PPU::new();
    set_address(&mut p, &mut c, 0x3F10);
    p.cpu_write(&mut c, 0x2007, 0x2A);
    assert_eq!(p.palette_ram[0], 0x2A);
    set_address(&mut p, &mut c, 0x3F00);
    assert_eq!(p.cpu_read(&c, 0x2007), 0x2A);
    assert_eq!(p.ppu_read(&c, 0x3F30), 0x2A);
}

#[test]
fn pattern_writes_go_to_chr_ram() {
    let mut c = chr_ram_cart();
    let mut p = PPU::new();
    set_address(&mut p, &mut c, 0x0123);
    p.cpu_write(&mut c, 0x2007, 0x77);
    assert_eq!(c.ppu_read(0x0123), 0x77);
    assert_eq!(p.ppu_read(&c, 0x0123), 0x77);
}

#[test]
fn nametables_follow_the_header_mirroring() {
    let mut c = chr_ram_cart();
    assert!(matches!(c.mirroring, Mirroring::Horizontal));
    let mut p = PPU::new();
    p.ppu_write(&mut c, 0x2005, 0x5A);
    assert_eq!(p.ppu_read(&c, 0x2405), 0x5A);
    assert_eq!(p.ppu_read(&c, 0x2805), 0);
    assert_eq!(p.ppu_read(&c, 0x3005), 0x5A);
}

#[test]
fn status_read_resets_the_latch() {
    let mut c = chr_ram_cart();
    let mut p = PPU::new();
    p.cpu_write(&mut c, 0x2006, 0x21);
    let _ = p.cpu_read(&c, 0x2002);
    // the latch is back to the high byte
    set_address(&mut p, &mut c, 0x2300);
    p.cpu_write(&mut c, 0x2007, 0x3C);
    assert_eq!(p.ppu_read(&c, 0x2300), 0x3C);
}

#[test]
fn oamdata_writes_advance_and_wrap() {
    let mut c = chr_ram_cart();
    let mut p = PPU::new();
    p.cpu_write(&mut c, 0x2003, 0xFF);
    p.cpu_write(&mut c, 0x2004, 0x10);
    p.cpu_write(&mut c, 0x2004, 0x20);
    assert_eq!(p.oam_ram[0xFF], 0x10);
    assert_eq!(p.oam_ram[0x00], 0x20);
    p.cpu_write(&mut c, 0x2003, 0x00);
    assert_eq!(p.cpu_read(&c, 0x2004), 0x20);
}

#[test]
fn frame_of_background_colour() {
    let mut c = chr_ram_cart();
    let mut p = PPU::new();
    set_address(&mut p, &mut c, 0x3F00);
    p.cpu_write(&mut c, 0x2007, 0x21);
    // show the background (also in the leftmost 8 pixels)
    p.cpu_write(&mut c, 0x2001, 0x0A);
    for _ in 0..(341 * 262) {
        p.step(&c);
    }
    assert_eq!(p.frame_buffer.len(), SCREEN_WIDTH * SCREEN_HEIGHT);
    assert_eq!(p.frame_buffer[0], NES_SYSTEM_PALETTE[0x21]);
    assert_eq!(p.frame_buffer[SCREEN_WIDTH * SCREEN_HEIGHT - 1], NES_SYSTEM_PALETTE[0x21]);
    assert!(p.frame_complete);
}

#[test]
fn scroll_registers_load_fine_and_coarse_parts() {
    let mut c = chr_ram_cart();
    let mut p = PPU::new();
    // x scroll 0x7D (coarse 15, fine 5), y scroll 0x5E (coarse 11, fine 6)
    p.cpu_write(&mut c, 0x2005, 0x7D);
    p.cpu_write(&mut c, 0x2005, 0x5E);
    // PPUADDR's second write copies t to v; the high write keeps the
    // scroll's coarse X and coarse Y low bits only where untouched
    p.cpu_write(&mut c, 0x2006, 0x20);
    p.cpu_write(&mut c, 0x2006, 0x00);
    p.cpu_write(&mut c, 0x2007, 0x66);
    assert_eq!(p.ppu_read(&c, 0x2000), 0x66);
}

#[test]
fn copy_x_and_copy_y_take_bits_from_t() {
    let mut c = chr_ram_cart();
    let mut p = PPU::new();
    set_address(&mut p, &mut c, 0x2C3F);
    p.copy_x();
    p.copy_y();
    p.increment_fine_y();
    p.cpu_write(&mut c, 0x2007, 0x01);
    // fine Y 1 of 0x2C3F is 0x3C3F, whose 14-bit address wraps the write
    assert_eq!(p.ppu_read(&c, 0x3C3F), 0x01);
}

/// Dots from one frame-complete signal to the next.
fn frame_length(p: &mut PPU, c: &Cartridge) -> u32 {
    let mut n = 0u32;
    loop {
        p.step(c);
        n += 1;
        if p.frame_complete {
            p.frame_complete = false;
            return n;
        }
    }
}

#[test]
fn odd_rendering_frames_skip_one_dot() {
    let mut c = chr_ram_cart();
    let mut p = PPU::new();
    p.cpu_write(&mut c, 0x2001, 0x18);
    frame_length(&mut p, &c);
    let a = frame_length(&mut p, &c);
    let b = frame_length(&mut p, &c);
    let mut lengths = [a, b];
    lengths.sort();
    assert_eq!(lengths, [89341, 89342]);
}

#[test]
fn frames_without_rendering_keep_every_dot() {
    let c = chr_ram_cart();
    let mut p = PPU::new();
    frame_length(&mut p, &c);
    assert_eq!(frame_length(&mut p, &c), 89342);
    assert_eq!(frame_length(&mut p, &c), 89342);
}

/// A PPU and CHR-RAM cartridge with tile 1 solid (pattern value 1),
/// background colour 0x0F, background palette 0 colour 1 = 0x21 and
/// sprite palette 0 colour 1 = 0x16.
fn sprite_setup() -> (PPU, Cartridge) {
    let mut c = chr_ram_cart();
    let mut p = PPU::new();
    set_address(&mut p, &mut c, 0x0010);
    for _ in 0..8 {
        p.cpu_write(&mut c, 0x2007, 0xFF);
    }
    set_address(&mut p, &mut c, 0x3F00);
    p.cpu_write(&mut c, 0x2007, 0x0F);
    p.cpu_write(&mut c, 0x2007, 0x21);
    set_address(&mut p, &mut c, 0x3F11);
    p.cpu_write(&mut c, 0x2007, 0x16);
    // park every sprite below the screen
    p.cpu_write(&mut c, 0x2003, 0);
    for _ in 0..256 {
        p.cpu_write(&mut c, 0x2004, 0xFF);
    }
    (p, c)
}

fn put_sprite(p: &mut PPU, c: &mut Cartridge, index: u8, y: u8, tile: u8, attr: u8, x: u8) {
    p.cpu_write(c, 0x2003, index * 4);
    for b in [y, tile, attr, x] {
        p.cpu_write(c, 0x2004, b);
    }
}

/// Runs to the end of the visible frame and returns PPUSTATUS as read then.
fn run_frame(p: &mut PPU, c: &Cartridge) -> u8 {
    while !p.frame_complete {
        p.step(c);
    }
    p.cpu_read(c, 0x2002)
}

fn pixel(p: &PPU, x: usize, y: usize) -> u32 {
    p.frame_buffer[y * SCREEN_WIDTH + x]
}

#[test]
fn sprites_are_drawn_over_the_background() {
    let (mut p, mut c) = sprite_setup();
    put_sprite(&mut p, &mut c, 0, 9, 1, 0, 20);
    p.cpu_write(&mut c, 0x2001, 0x1E);
    let status = run_frame(&mut p, &c);
    // the sprite covers x 20..=27 on lines 10..=17
    assert_eq!(pixel(&p, 20, 10), NES_SYSTEM_PALETTE[0x16]);
    assert_eq!(pixel(&p, 27, 17), NES_SYSTEM_PALETTE[0x16]);
    assert_eq!(pixel(&p, 19, 10), NES_SYSTEM_PALETTE[0x0F]);
    assert_eq!(pixel(&p, 20, 9), NES_SYSTEM_PALETTE[0x0F]);
    assert_eq!(pixel(&p, 20, 18), NES_SYSTEM_PALETTE[0x0F]);
    // transparent background: no sprite-0 hit, no overflow
    assert_eq!(status & 0x60, 0);
}

#[test]
fn more_than_eight_sprites_on_a_line_overflow() {
    let (mut p, mut c) = sprite_setup();
    for i in 0..9u8 {
        put_sprite(&mut p, &mut c, i, 49, 1, 0, i * 8);
    }
    p.cpu_write(&mut c, 0x2001, 0x1E);
    let status = run_frame(&mut p, &c);
    assert_eq!(status & 0x20, 0x20);
    // only the first eight are drawn
    assert_eq!(pixel(&p, 56, 50), NES_SYSTEM_PALETTE[0x16]);
    assert_eq!(pixel(&p, 64, 50), NES_SYSTEM_PALETTE[0x0F]);
}

#[test]
fn sprite_zero_hit_and_priority() {
    let (mut p, mut c) = sprite_setup();
    // every nametable cell shows tile 1: an opaque background
    set_address(&mut p, &mut c, 0x2000);
    for _ in 0..960 {
        p.cpu_write(&mut c, 0x2007, 1);
    }
    // sprite 0 behind the background (attribute bit 5)
    put_sprite(&mut p, &mut c, 0, 29, 1, 0x20, 40);
    p.cpu_write(&mut c, 0x2001, 0x1E);
    let status = run_frame(&mut p, &c);
    assert_eq!(status & 0x40, 0x40);
    assert_eq!(pixel(&p, 44, 35), NES_SYSTEM_PALETTE[0x21]);
}

#[test]
fn tall_sprites_use_two_tiles() {
    let (mut p, mut c) = sprite_setup();
    // 8x16 mode: tile 0 (table 0) on top, tile 1 below
    p.cpu_write(&mut c, 0x2000, 0x20);
    put_sprite(&mut p, &mut c, 0, 99, 0, 0, 100);
    p.cpu_write(&mut c, 0x2001, 0x1E);
    run_frame(&mut p, &c);
    // lines 100..=107 come from the empty tile 0, 108..=115 from tile 1
    assert_eq!(pixel(&p, 100, 104), NES_SYSTEM_PALETTE[0x0F]);
    assert_eq!(pixel(&p, 100, 110), NES_SYSTEM_PALETTE[0x16]);
    assert_eq!(pixel(&p, 100, 116), NES_SYSTEM_PALETTE[0x0F]);
}
