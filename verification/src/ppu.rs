use vstd::prelude::*;
use crate::cartridge::{CartState, Cartridge, nametable_index};
use crate::modular::wadd16;
use crate::bits::{lemma_bit_of, lemma_byte, lemma_two_bits, lemma_word16};

verus! {

/// The NES master palette as 0xRRGGBB.
pub const NES_SYSTEM_PALETTE: [u32; 64] = [
    0x808080,
    0x003DA6,
    0x0012B0,
    0x440096,
    0xA1005E,
    0xC70028,
    0xBA0600,
    0x8C1700,
    0x5C2F00,
    0x104500,
    0x004A00,
    0x00472E,
    0x004166,
    0x000000,
    0x000000,
    0x000000,
    0xC5C5C5,
    0x006DD7,
    0x2442FF,
    0x7700E1,
    0xD9009C,
    0xFF014C,
    0xF61E00,
    0xC73E00,
    0x9B6100,
    0x4C7A00,
    0x008400,
    0x008343,
    0x007A8D,
    0x000000,
    0x000000,
    0x000000,
    0xFFFFFF,
    0x64B0FF,
    0x9290FF,
    0xC676FF,
    0xF36AFF,
    0xFE6EC9,
    0xFF7A82,
    0xFA9248,
    0xCFAB00,
    0x93C600,
    0x51D300,
    0x27D26E,
    0x1ED2B2,
    0x4B4B4B,
    0x000000,
    0x000000,
    0xFFFFFF,
    0xC0E0FF,
    0xD2D2FF,
    0xE8C8FF,
    0xFBC2FF,
    0xFEC4EA,
    0xFECECA,
    0xF5D0B2,
    0xE4DCB2,
    0xCCDDAE,
    0xB5E1B2,
    0xA1E2C3,
    0x9CE2DF,
    0xB9B9B9,
    0x000000,
    0x000000,
];

pub const SCREEN_WIDTH: usize = 256;

pub const SCREEN_HEIGHT: usize = 240;

/// Pixels in one frame.
pub const FRAME_PIXELS: usize = 61440;

/// The abstract state of the PPU.
pub ghost struct PpuState {
    pub frame: Seq<u32>,
    pub vram: Seq<u8>,
    pub palette: Seq<u8>,
    pub oam: Seq<u8>,
    pub read_buffer: u8,
    pub bus_address: u16,
    pub ctrl: u8,
    pub mask: u8,
    pub status: u8,
    pub oam_address: u8,
    pub oam_data: u8,
    pub scroll: u8,
    pub address: u8,
    pub data: u8,
    pub oam_dma: u8,
    pub v: u16,
    pub t: u16,
    pub x: u8,
    pub w: bool,
    pub dots: u16,
    pub scanline: u16,
    pub odd_frame: bool,
    pub nt_byte: u8,
    pub at_byte: u8,
    pub pattern_low: u8,
    pub pattern_high: u8,
    pub pattern_shift_lo: u16,
    pub pattern_shift_hi: u16,
    pub attrib_shift_lo: u16,
    pub attrib_shift_hi: u16,
    pub request_nmi: bool,
    pub frame_complete: bool,
    /// The OAM numbers (0..64) of the sprites on the line being drawn, at
    /// most 8, in OAM order.
    pub sprites: Seq<u8>,
}

/// The palette RAM cell that a PPU address in 0x3F00..=0x3FFF reaches:
/// 32 cells, where 0x3F10/14/18/1C mirror 0x3F00/04/08/0C.
pub open spec fn palette_index(address: u16) -> int {
    let i = address as int % 32;
    if i == 0x10 || i == 0x14 || i == 0x18 || i == 0x1C {
        i - 0x10
    } else {
        i
    }
}

/// The VRAM address increment that PPUCTRL bit 2 selects: 32 (down a
/// row) when set, else 1 (across).
pub open spec fn vram_increment(ctrl: u8) -> u16 {
    if ctrl & 0x04 != 0 {
        32
    } else {
        1
    }
}

/// Loopy `v`: the coarse X scroll (bits 0-4).
pub open spec fn coarse_x(v: u16) -> u16 {
    v & 0x001F
}

/// Loopy `v`: the coarse Y scroll (bits 5-9).
pub open spec fn coarse_y(v: u16) -> u16 {
    (v >> 5u16) & 0x1F
}

/// Loopy `v`: the fine Y scroll (bits 12-14).
pub open spec fn fine_y(v: u16) -> u16 {
    (v >> 12u16) & 0x07
}

/// Moves `v` one tile right: coarse X counts up and, past 31, wraps to 0
/// and switches the horizontal nametable (bit 10).
pub open spec fn incremented_coarse_x(v: u16) -> u16 {
    if v & 0x001F == 31 {
        (v & !0x001Fu16) ^ 0x0400
    } else {
        (v + 1) as u16
    }
}

/// Moves `v` one pixel row down: fine Y counts up; past 7 it wraps and
/// coarse Y counts up, wrapping at 29 with a switch of the vertical
/// nametable (bit 11), and at 31 without one.
pub open spec fn incremented_fine_y(v: u16) -> u16 {
    if v & 0x7000 != 0x7000 {
        (v + 0x1000) as u16
    } else {
        let v1 = v & !0x7000u16;
        let y = (v1 & 0x03E0) >> 5u16;
        if y == 29 {
            ((v1 ^ 0x0800) & !0x03E0u16) | (0u16 << 5u16)
        } else if y == 31 {
            (v1 & !0x03E0u16) | (0u16 << 5u16)
        } else {
            (v1 & !0x03E0u16) | (((y + 1) as u16) << 5u16)
        }
    }
}

/// `v` with its horizontal bits (coarse X, nametable X) taken from `t`.
pub open spec fn copied_x(v: u16, t: u16) -> u16 {
    (v & !0x041Fu16) | (t & 0x041F)
}

/// `v` with its vertical bits (coarse Y, fine Y, nametable Y) from `t`.
pub open spec fn copied_y(v: u16, t: u16) -> u16 {
    (v & !0x7BE0u16) | (t & 0x7BE0)
}

impl PpuState {
    pub open spec fn inv(self) -> bool {
        &&& self.frame.len() == FRAME_PIXELS
        &&& self.vram.len() == 2048
        &&& self.palette.len() == 32
        &&& self.oam.len() == 256
        &&& self.x <= 7
        &&& self.t <= 0x7FFF
        &&& self.dots <= 340
        &&& self.scanline <= 261
        &&& self.sprites.len() <= 8
        &&& forall|k: int| 0 <= k < self.sprites.len() ==> #[trigger] self.sprites[k] < 64
    }

    /// A read of the PPU's own 14-bit address space: pattern tables from
    /// the cartridge, nametables through the mirroring, palette RAM.
    pub open spec fn ppu_read(self, cart: CartState, address: u16) -> u8 {
        let addr = address & 0x3FFF;
        if addr <= 0x1FFF {
            cart.ppu_read(addr)
        } else if addr <= 0x3EFF {
            self.vram[nametable_index(cart.current_mirroring(), addr & 0x2FFF)]
        } else {
            self.palette[palette_index(addr)]
        }
    }

    /// A write to the PPU's own address space.
    pub open spec fn ppu_write(self, cart: CartState, address: u16, data: u8) -> (
        PpuState,
        CartState,
    ) {
        let addr = address & 0x3FFF;
        if addr <= 0x1FFF {
            (self, cart.ppu_write(addr, data))
        } else if addr <= 0x3EFF {
            (
                PpuState {
                    vram: self.vram.update(
                        nametable_index(cart.current_mirroring(), addr & 0x2FFF),
                        data,
                    ),
                    ..self
                },
                cart,
            )
        } else {
            (PpuState { palette: self.palette.update(palette_index(addr), data), ..self }, cart)
        }
    }

    /// OAMDATA write: store at the OAM address, which then advances by one
    /// (modulo 256).
    pub open spec fn oam_write(self, data: u8) -> Self {
        PpuState {
            oam: self.oam.update(self.oam_address as int, data),
            oam_address: ((self.oam_address + 1) % 256) as u8,
            ..self
        }
    }

    /// A CPU read of a PPU register (0x2000..=0x3FFF mirror every 8 bytes):
    /// PPUSTATUS clears the vblank flag and the write latch; OAMDATA reads
    /// OAM; PPUDATA returns the buffered byte (palette reads unbuffered)
    /// and advances `v`. Write-only registers read 0.
    pub open spec fn cpu_read(self, cart: CartState, address: u16) -> (u8, Self) {
        let reg = address % 8;
        if reg == 2 {
            (self.status, PpuState { status: self.status & !0x80u8, w: false, ..self })
        } else if reg == 4 {
            (self.oam[self.oam_address as int], self)
        } else if reg == 7 {
            let a = self.v & 0x3FFF;
            let data = self.ppu_read(cart, a);
            let v = wadd16(self.v, vram_increment(self.ctrl));
            if a >= 0x3F00 {
                (data, PpuState { v, read_buffer: self.ppu_read(cart, (a - 0x1000) as u16), ..self })
            } else {
                (self.read_buffer, PpuState { v, read_buffer: data, ..self })
            }
        } else {
            (0, self)
        }
    }

    /// A CPU write of a PPU register.
    pub open spec fn cpu_write(self, cart: CartState, address: u16, data: u8) -> (Self, CartState) {
        let reg = address % 8;
        let d = data as u16;
        if reg == 0 {
            (PpuState { ctrl: data, t: (self.t & !0x0C00u16) | ((d & 0x03) << 10u16), ..self }, cart)
        } else if reg == 1 {
            (PpuState { mask: data, ..self }, cart)
        } else if reg == 3 {
            (PpuState { oam_address: data, ..self }, cart)
        } else if reg == 4 {
            (self.oam_write(data), cart)
        } else if reg == 5 {
            if !self.w {
                (PpuState { x: data & 0x07, t: (self.t & !0x001Fu16) | (d >> 3u16), w: true, ..self }, cart)
            } else {
                (
                    PpuState {
                        t: (self.t & !0x73E0u16) | ((d & 0x07) << 12u16) | ((d & 0xF8) << 2u16),
                        w: false,
                        ..self
                    },
                    cart,
                )
            }
        } else if reg == 6 {
            if !self.w {
                (PpuState { t: (self.t & !0x7F00u16) | ((d & 0x3F) << 8u16), w: true, ..self }, cart)
            } else {
                let t = (self.t & !0x00FFu16) | d;
                (PpuState { t, v: t, w: false, ..self }, cart)
            }
        } else if reg == 7 {
            let (p, c) = self.ppu_write(cart, self.v & 0x3FFF, data);
            (PpuState { v: wadd16(self.v, vram_increment(self.ctrl)), ..p }, c)
        } else {
            (self, cart)
        }
    }

    /// The colour of the background pixel at the current dot: two pattern
    /// bits and two palette bits picked by fine X from the shift registers;
    /// colour 0 (also forced in the leftmost 8 pixels when PPUMASK bit 1 is
    /// clear) shows the universal background colour.
    /// The background's 2-bit pattern value at the current dot (0 in the
    /// leftmost 8 pixels when PPUMASK bit 1 hides them).
    pub open spec fn bg_pattern(self) -> u8 {
        let bit_mux = (15 - self.x) as u16;
        let p0 = ((self.pattern_shift_lo >> bit_mux) & 1) as u8;
        let p1 = ((self.pattern_shift_hi >> bit_mux) & 1) as u8;
        let px = self.dots - 1;
        if px < 8 && self.mask & 0x02 == 0 {
            0u8
        } else {
            ((p1 << 1u8) | p0) as u8
        }
    }

    /// The palette RAM cell of the background at the current dot: the
    /// universal background colour for a transparent pixel.
    pub open spec fn bg_palette_addr(self) -> int {
        let bit_mux = (15 - self.x) as u16;
        let a0 = ((self.attrib_shift_lo >> bit_mux) & 1) as u8;
        let a1 = ((self.attrib_shift_hi >> bit_mux) & 1) as u8;
        let palette_id = ((a1 << 1u8) | a0) as u8;
        let pattern_color = self.bg_pattern();
        if pattern_color == 0 {
            0
        } else {
            palette_id as int * 4 + pattern_color as int
        }
    }

    /// Sprite height: 16 in 8x16 mode (PPUCTRL bit 5), else 8.
    pub open spec fn sprite_height(self) -> int {
        if self.ctrl & 0x20 != 0 {
            16
        } else {
            8
        }
    }

    /// Whether OAM sprite `i` covers the line after `line` (a sprite's Y
    /// byte is one less than its top line).
    pub open spec fn covers(self, i: int, line: int) -> bool {
        let y = self.oam[4 * i] as int;
        y <= line < y + self.sprite_height()
    }

    /// The OAM numbers below `n` of the sprites that cover the line after
    /// `line`, in OAM order.
    pub open spec fn in_range(self, line: int, n: nat) -> Seq<u8>
        decreases n,
    {
        if n == 0 {
            Seq::empty()
        } else {
            let found = self.in_range(line, (n - 1) as nat);
            if self.covers(n - 1, line) {
                found.push((n - 1) as u8)
            } else {
                found
            }
        }
    }

    /// At most the first 8 of `found`.
    pub open spec fn first_eight(found: Seq<u8>) -> Seq<u8> {
        if found.len() <= 8 {
            found
        } else {
            found.take(8)
        }
    }

    /// Sprite evaluation at dot 257: the first 8 sprites on the next line
    /// become the line's sprites, and more than 8 set the overflow flag
    /// (PPUSTATUS bit 5); on the pre-render line no sprite is selected.
    pub open spec fn evaluated(self) -> Self {
        if self.scanline == 261 {
            PpuState { sprites: Seq::empty(), ..self }
        } else {
            let found = self.in_range(self.scanline as int, 64);
            PpuState {
                sprites: Self::first_eight(found),
                status: if found.len() > 8 {
                    self.status | 0x20
                } else {
                    self.status
                },
                ..self
            }
        }
    }

    /// The 2-bit pattern value of the line's sprite in slot `slot` at pixel
    /// `x` of the current line (0 where the sprite does not reach): the row
    /// and column within the sprite, flipped by attribute bits 7
    /// (vertical) and 6 (horizontal), read from the pattern table that
    /// PPUCTRL bit 3 selects, or in 8x16 mode that bit 0 of the tile
    /// number selects.
    pub open spec fn sprite_pattern(self, cart: CartState, slot: int, x: int) -> u8 {
        let i = self.sprites[slot] as int;
        let y = self.oam[4 * i] as int;
        let tile = self.oam[4 * i + 1];
        let attr = self.oam[4 * i + 2];
        let col = x - self.oam[4 * i + 3] as int;
        let h = self.sprite_height();
        let row0 = self.scanline as int - 1 - y;
        if !(0 <= col < 8) || !(0 <= row0 < h) {
            0
        } else {
            let row = if attr & 0x80 != 0 {
                h - 1 - row0
            } else {
                row0
            };
            let addr = if h == 16 {
                (tile % 2) as int * 0x1000 + ((tile - tile % 2) + row / 8) * 16 + row % 8
            } else {
                (if self.ctrl & 0x08 != 0 {
                    0x1000int
                } else {
                    0
                }) + tile as int * 16 + row
            };
            let lo = self.ppu_read(cart, addr as u16);
            let hi = self.ppu_read(cart, (addr + 8) as u16);
            let bit = (if attr & 0x40 != 0 {
                col
            } else {
                7 - col
            }) as u8;
            (2 * ((hi >> bit) % 2) + (lo >> bit) % 2) as u8
        }
    }

    /// The first slot at or after `slot` whose sprite is opaque at pixel
    /// `x`, or the number of slots if there is none.
    pub open spec fn first_opaque(self, cart: CartState, slot: nat, x: int) -> nat
        decreases self.sprites.len() - slot,
    {
        if slot >= self.sprites.len() {
            self.sprites.len()
        } else if self.sprite_pattern(cart, slot as int, x) != 0 {
            slot
        } else {
            self.first_opaque(cart, slot + 1, x)
        }
    }

    /// Whether sprites show at pixel `x`: PPUMASK bit 4, and bit 2 for the
    /// leftmost 8 pixels.
    pub open spec fn sprites_shown(self, x: int) -> bool {
        self.mask & 0x10 != 0 && !(x < 8 && self.mask & 0x04 == 0)
    }

    /// The frame with the current dot's pixel plotted: the first opaque
    /// sprite over the background, unless its priority bit (attribute bit
    /// 5) puts it behind an opaque background pixel; and sprite 0 opaque
    /// over an opaque background pixel (not at x = 255) sets the sprite-0
    /// hit flag (PPUSTATUS bit 6).
    pub open spec fn rendered(self, cart: CartState) -> Self {
        let x = self.dots - 1;
        let bg = self.bg_pattern();
        let shown = self.sprites_shown(x);
        let slot = self.first_opaque(cart, 0, x);
        let use_sprite = shown && slot < self.sprites.len() && (bg == 0
            || self.oam[4 * self.sprites[slot as int] + 2] & 0x20 == 0);
        let addr = if use_sprite {
            let attr = self.oam[4 * self.sprites[slot as int] + 2];
            0x10 + (attr % 4) as int * 4 + self.sprite_pattern(cart, slot as int, x) as int
        } else {
            self.bg_palette_addr()
        };
        let color = NES_SYSTEM_PALETTE@[(self.palette[addr] & 0x3F) as int];
        let hit = shown && self.mask & 0x08 != 0 && self.sprites.len() > 0 && self.sprites[0] == 0
            && self.sprite_pattern(cart, 0, x) != 0 && bg != 0 && x != 255;
        PpuState {
            frame: self.frame.update(self.scanline as int * 256 + x, color),
            status: if hit {
                self.status | 0x40
            } else {
                self.status
            },
            ..self
        }
    }

    pub open spec fn shifted(self) -> Self {
        PpuState {
            pattern_shift_lo: (self.pattern_shift_lo << 1u16) as u16,
            pattern_shift_hi: (self.pattern_shift_hi << 1u16) as u16,
            attrib_shift_lo: (self.attrib_shift_lo << 1u16) as u16,
            attrib_shift_hi: (self.attrib_shift_hi << 1u16) as u16,
            ..self
        }
    }

    /// The shift registers with the latched tile loaded into their low
    /// bytes; the palette bits come from the attribute quadrant `v` is in.
    pub open spec fn loaded(self) -> Self {
        let shift = ((self.v >> 4u16) & 0x04) | (self.v & 0x02);
        let palette_id = (self.at_byte >> shift) & 0x03;
        let attr_lo: u16 = if palette_id & 0x01 != 0 {
            0xFF
        } else {
            0
        };
        let attr_hi: u16 = if palette_id & 0x02 != 0 {
            0xFF
        } else {
            0
        };
        PpuState {
            pattern_shift_lo: (self.pattern_shift_lo & 0xFF00) | (self.pattern_low as u16),
            pattern_shift_hi: (self.pattern_shift_hi & 0xFF00) | (self.pattern_high as u16),
            attrib_shift_lo: (self.attrib_shift_lo & 0xFF00) | attr_lo,
            attrib_shift_hi: (self.attrib_shift_hi & 0xFF00) | attr_hi,
            ..self
        }
    }

    /// The base of the background pattern table (PPUCTRL bit 4).
    pub open spec fn bg_table(self) -> u16 {
        if self.ctrl & 0x10 != 0 {
            0x1000
        } else {
            0
        }
    }

    /// The background fetch of the current dot, in the 8-dot pattern:
    /// nametable byte, attribute byte, pattern low, pattern high, then
    /// reload the shift registers and move to the next tile.
    pub open spec fn tile_fetch(self, cart: CartState) -> Self {
        let phase = self.dots % 8;
        if phase == 1 {
            PpuState { nt_byte: self.ppu_read(cart, 0x2000 | (self.v & 0x0FFF)), ..self }
        } else if phase == 3 {
            let a = 0x23C0 | (self.v & 0x0C00) | ((self.v >> 4u16) & 0x38) | ((self.v >> 2u16)
                & 0x07);
            PpuState { at_byte: self.ppu_read(cart, a), ..self }
        } else if phase == 5 {
            let a = (self.bg_table() + (self.nt_byte as u16) * 16 + fine_y(self.v)) as u16;
            PpuState { pattern_low: self.ppu_read(cart, a), ..self }
        } else if phase == 7 {
            let a = (self.bg_table() + (self.nt_byte as u16) * 16 + fine_y(self.v) + 8) as u16;
            PpuState { pattern_high: self.ppu_read(cart, a), ..self }
        } else if phase == 0 {
            let l = self.loaded();
            PpuState { v: incremented_coarse_x(l.v), ..l }
        } else {
            self
        }
    }

    /// Background fetches and scroll maintenance on the visible and
    /// pre-render lines: tile fetches on dots 1-256 and 321-336, fine Y
    /// step at dot 256, horizontal copy at 257, vertical copy on 280-304
    /// of the pre-render line.
    pub open spec fn fetched(self, cart: CartState) -> Self {
        let visible = self.scanline <= 239;
        let prerender = self.scanline == 261;
        if !visible && !prerender {
            self
        } else {
            let s1 = if (1 <= self.dots <= 256) || (321 <= self.dots <= 336) {
                self.tile_fetch(cart)
            } else {
                self
            };
            let s2 = if s1.dots == 256 {
                PpuState { v: incremented_fine_y(s1.v), ..s1 }
            } else {
                s1
            };
            let s3 = if s2.dots == 257 {
                PpuState { v: copied_x(s2.v, s2.t), ..s2 }
            } else {
                s2
            };
            if prerender && 280 <= s3.dots <= 304 {
                PpuState { v: copied_y(s3.v, s3.t), ..s3 }
            } else {
                s3
            }
        }
    }

    /// Rendering is on when PPUMASK shows the background or sprites.
    pub open spec fn rendering_enabled(self) -> bool {
        self.mask & 0x18 != 0
    }

    /// One PPU dot: plot the pixel, fetch and scroll, shift, raise vblank
    /// (and the NMI request, if PPUCTRL bit 7 asks for it) at line 241
    /// dot 1, clear the status flags at line 261 dot 1, then advance the
    /// dot counter over 341 dots by 262 lines, skipping the last dot of
    /// the pre-render line on odd frames while rendering.
    pub open spec fn stepped(self, cart: CartState) -> Self {
        self.drawn(cart).signalled().ticked(self.rendering_enabled())
    }

    /// The drawing half of a dot: plot the pixel (background and sprites)
    /// on visible dots, then, while rendering, the background fetches, the
    /// sprite evaluation for the next line at dot 257, and the shifting of
    /// the background pipeline.
    pub open spec fn drawn(self, cart: CartState) -> Self {
        let s1 = if self.scanline <= 239 && 1 <= self.dots <= 256 {
            self.rendered(cart)
        } else {
            self
        };
        let rendering = self.rendering_enabled();
        let s2 = if rendering {
            s1.fetched(cart)
        } else {
            s1
        };
        let line = (self.scanline <= 239 || self.scanline == 261) && rendering;
        let s3 = if line && self.dots == 257 {
            s2.evaluated()
        } else {
            s2
        };
        if line && ((1 <= self.dots <= 256) || (321 <= self.dots <= 336)) {
            s3.shifted()
        } else {
            s3
        }
    }

    /// The status side of a dot: vblank (and the NMI request, when PPUCTRL
    /// bit 7 asks for it) raised at line 241 dot 1, where the frame is
    /// complete; status flags cleared at line 261 dot 1.
    pub open spec fn signalled(self) -> Self {
        let s4 = if self.scanline == 241 && self.dots == 1 {
            PpuState {
                status: self.status | 0x80,
                request_nmi: if self.ctrl & 0x80 != 0 {
                    true
                } else {
                    self.request_nmi
                },
                frame_complete: true,
                ..self
            }
        } else {
            self
        };
        if self.scanline == 261 && self.dots == 1 {
            PpuState { status: s4.status & !0xE0u8, ..s4 }
        } else {
            s4
        }
    }

    /// The dot counter after one dot: 341 dots per line, 262 lines per
    /// frame, and on odd frames while rendering the pre-render line skips
    /// its last dot (dot 340), so such a frame is one dot shorter.
    pub open spec fn ticked(self, rendering: bool) -> Self {
        let dots = self.dots + 1;
        if self.scanline == 261 && rendering && self.odd_frame && dots == 340 {
            PpuState { dots: 0, scanline: 0, odd_frame: !self.odd_frame, ..self }
        } else if dots > 340 {
            if self.scanline + 1 > 261 {
                PpuState { dots: 0, scanline: 0, odd_frame: !self.odd_frame, ..self }
            } else {
                PpuState { dots: 0, scanline: (self.scanline + 1) as u16, ..self }
            }
        } else {
            PpuState { dots: dots as u16, ..self }
        }
    }
}

/// The picture processing unit: registers, VRAM, palette, OAM, the
/// background pipeline and the frame being drawn.
pub struct PPU {
    pub frame_buffer: Vec<u32>,
    pub vram: [u8; 2048],
    pub palette_ram: [u8; 32],
    pub oam_ram: [u8; 256],
    vram_read_buffer: u8,
    ppu_bus_address: u16,
    ppuctrl: u8,
    ppumask: u8,
    ppustatus: u8,
    oam_address: u8,
    oam_data: u8,
    ppu_scroll: u8,
    ppu_address: u8,
    ppu_data: u8,
    oam_dma: u8,
    v: u16,
    t: u16,
    x: u8,
    w: bool,
    ppu_dots: u16,
    scanlines: u16,
    is_odd_frame: bool,
    nt_byte: u8,
    at_byte: u8,
    pattern_low: u8,
    pattern_high: u8,
    pattern_shift_lo: u16,
    pattern_shift_hi: u16,
    attrib_shift_lo: u16,
    attrib_shift_hi: u16,
    pub request_nmi: bool,
    pub frame_complete: bool,
    line_sprites: Vec<u8>,
}

impl View for PPU {
    type V = PpuState;

    closed spec fn view(&self) -> PpuState {
        PpuState {
            frame: self.frame_buffer@,
            vram: self.vram@,
            palette: self.palette_ram@,
            oam: self.oam_ram@,
            read_buffer: self.vram_read_buffer,
            bus_address: self.ppu_bus_address,
            ctrl: self.ppuctrl,
            mask: self.ppumask,
            status: self.ppustatus,
            oam_address: self.oam_address,
            oam_data: self.oam_data,
            scroll: self.ppu_scroll,
            address: self.ppu_address,
            data: self.ppu_data,
            oam_dma: self.oam_dma,
            v: self.v,
            t: self.t,
            x: self.x,
            w: self.w,
            dots: self.ppu_dots,
            scanline: self.scanlines,
            odd_frame: self.is_odd_frame,
            nt_byte: self.nt_byte,
            at_byte: self.at_byte,
            pattern_low: self.pattern_low,
            pattern_high: self.pattern_high,
            pattern_shift_lo: self.pattern_shift_lo,
            pattern_shift_hi: self.pattern_shift_hi,
            attrib_shift_lo: self.attrib_shift_lo,
            attrib_shift_hi: self.attrib_shift_hi,
            request_nmi: self.request_nmi,
            frame_complete: self.frame_complete,
            sprites: self.line_sprites@,
        }
    }
}

/// A frame of `n` black pixels.
fn black_frame(n: usize) -> (v: Vec<u32>)
    ensures
        v@ == Seq::new(n as nat, |i: int| 0u32),
{
    let mut v: Vec<u32> = Vec::new();
    let mut i: usize = 0;
    while i < n
        invariant
            i <= n,
            v@ == Seq::new(i as nat, |k: int| 0u32),
        decreases n - i,
    {
        v.push(0);
        i += 1;
    }
    v
}

impl PPU {
    /// The power-on state: all memories and registers zero, at line 0 dot
    /// 0 of an even frame.
    pub open spec fn new_state() -> PpuState {
        PpuState {
            frame: Seq::new(61440, |i: int| 0u32),
            vram: Seq::new(2048, |i: int| 0u8),
            palette: Seq::new(32, |i: int| 0u8),
            oam: Seq::new(256, |i: int| 0u8),
            read_buffer: 0,
            bus_address: 0,
            ctrl: 0,
            mask: 0,
            status: 0,
            oam_address: 0,
            oam_data: 0,
            scroll: 0,
            address: 0,
            data: 0,
            oam_dma: 0,
            v: 0,
            t: 0,
            x: 0,
            w: false,
            dots: 0,
            scanline: 0,
            odd_frame: false,
            nt_byte: 0,
            at_byte: 0,
            pattern_low: 0,
            pattern_high: 0,
            pattern_shift_lo: 0,
            pattern_shift_hi: 0,
            attrib_shift_lo: 0,
            attrib_shift_hi: 0,
            request_nmi: false,
            frame_complete: false,
            sprites: Seq::empty(),
        }
    }

    /// The PPU at power-on: all memories and registers zero, at line 0
    /// dot 0 of an even frame.
    pub fn new() -> (p: Self)
        ensures
            p@.inv(),
            p@ == Self::new_state(),
    {
        let p = Self {
            frame_buffer: black_frame(FRAME_PIXELS),
            vram: [0u8; 2048],
            palette_ram: [0u8; 32],
            oam_ram: [0u8; 256],
            vram_read_buffer: 0,
            ppu_bus_address: 0,
            ppuctrl: 0,
            ppumask: 0,
            ppustatus: 0,
            oam_address: 0,
            oam_data: 0,
            ppu_scroll: 0,
            ppu_address: 0,
            ppu_data: 0,
            oam_dma: 0,
            v: 0,
            t: 0,
            x: 0,
            w: false,
            ppu_dots: 0,
            scanlines: 0,
            is_odd_frame: false,
            nt_byte: 0,
            at_byte: 0,
            pattern_low: 0,
            pattern_high: 0,
            pattern_shift_lo: 0,
            pattern_shift_hi: 0,
            attrib_shift_lo: 0,
            attrib_shift_hi: 0,
            request_nmi: false,
            frame_complete: false,
            line_sprites: Vec::new(),
        };
        assert(p.vram@ =~= Seq::new(2048, |i: int| 0u8));
        assert(p.palette_ram@ =~= Seq::new(32, |i: int| 0u8));
        assert(p.oam_ram@ =~= Seq::new(256, |i: int| 0u8));
        p
    }

    /// The pattern value of the line's sprite in slot `slot` at pixel `x`
    /// (see [`PpuState::sprite_pattern`]).
    fn sprite_pattern(&self, cartridge: &Cartridge, slot: usize, x: u16) -> (r: u8)
        requires
            self@.inv(),
            cartridge@.inv(),
            cartridge@.chr_ready(),
            slot < self@.sprites.len(),
        ensures
            r == self@.sprite_pattern(cartridge@, slot as int, x as int),
            r <= 3,
    {
        let i = self.line_sprites[slot] as usize;
        let y = self.oam_ram[4 * i] as u16;
        let tile = self.oam_ram[4 * i + 1];
        let attr = self.oam_ram[4 * i + 2];
        let sx = self.oam_ram[4 * i + 3] as u16;
        let h: u16 = if (self.ppuctrl & 0x20) != 0 {
            16
        } else {
            8
        };
        if x < sx || x - sx >= 8 || self.scanlines < 1 + y || self.scanlines - 1 - y >= h {
            return 0;
        }
        let col = x - sx;
        let row0 = self.scanlines - 1 - y;
        let row = if (attr & 0x80) != 0 {
            h - 1 - row0
        } else {
            row0
        };
        let addr: u16 = if h == 16 {
            (tile % 2) as u16 * 0x1000 + ((tile - tile % 2) as u16 + row / 8) * 16 + row % 8
        } else {
            let base: u16 = if (self.ppuctrl & 0x08) != 0 {
                0x1000
            } else {
                0
            };
            base + tile as u16 * 16 + row
        };
        let lo = self.ppu_read(cartridge, addr);
        let hi = self.ppu_read(cartridge, addr + 8);
        let bit: u8 = if (attr & 0x40) != 0 {
            col as u8
        } else {
            (7 - col) as u8
        };
        2 * ((hi >> bit) % 2) + (lo >> bit) % 2
    }

    /// The first slot whose sprite is opaque at pixel `x`, or the number of
    /// slots (see [`PpuState::first_opaque`]).
    fn first_opaque(&self, cartridge: &Cartridge, x: u16) -> (r: usize)
        requires
            self@.inv(),
            cartridge@.inv(),
            cartridge@.chr_ready(),
        ensures
            r == self@.first_opaque(cartridge@, 0, x as int),
            r <= self@.sprites.len(),
    {
        let mut k: usize = 0;
        while k < self.line_sprites.len()
            invariant
                self@.inv(),
                cartridge@.inv(),
                cartridge@.chr_ready(),
                k <= self@.sprites.len(),
                self@.first_opaque(cartridge@, 0, x as int) == self@.first_opaque(
                    cartridge@,
                    k as nat,
                    x as int,
                ),
            decreases self@.sprites.len() - k,
        {
            if self.sprite_pattern(cartridge, k, x) != 0 {
                return k;
            }
            k += 1;
        }
        k
    }

    /// Sprite evaluation (see [`PpuState::evaluated`]).
    fn evaluate_sprites(&mut self)
        requires
            old(self)@.inv(),
        ensures
            final(self)@ == old(self)@.evaluated(),
            final(self)@.inv(),
    {
        if self.scanlines == 261 {
            self.line_sprites = Vec::new();
            return;
        }
        let h: u16 = if (self.ppuctrl & 0x20) != 0 {
            16
        } else {
            8
        };
        let line = self.scanlines;
        let ghost s0 = self@;
        let mut found: Vec<u8> = Vec::new();
        let mut overflow = false;
        let mut i: usize = 0;
        while i < 64
            invariant
                i <= 64,
                self@ == s0,
                s0.inv(),
                line == s0.scanline,
                h == s0.sprite_height(),
                found@ == PpuState::first_eight(s0.in_range(line as int, i as nat)),
                overflow == (s0.in_range(line as int, i as nat).len() > 8),
                forall|k: int| 0 <= k < found@.len() ==> #[trigger] found@[k] < 64,
            decreases 64 - i,
        {
            let ghost before = s0.in_range(line as int, i as nat);
            let y = self.oam_ram[4 * i] as u16;
            if y <= line && line < y + h {
                if found.len() < 8 {
                    found.push(i as u8);
                } else {
                    overflow = true;
                    assert(before.push(i as u8).take(8) =~= before.take(8));
                }
            }
            i += 1;
        }
        self.line_sprites = found;
        if overflow {
            self.ppustatus |= 0x20;
        }
    }

    fn render_pixel(&mut self, cartridge: &Cartridge)
        requires
            old(self)@.inv(),
            cartridge@.inv(),
            cartridge@.chr_ready(),
            old(self)@.scanline <= 239,
            1 <= old(self)@.dots <= 256,
        ensures
            final(self)@ == old(self)@.rendered(cartridge@),
            final(self)@.inv(),
    {
        let bit_mux: u16 = 15 - (self.x as u16);
        let lo = self.pattern_shift_lo;
        let hi = self.pattern_shift_hi;
        let alo = self.attrib_shift_lo;
        let ahi = self.attrib_shift_hi;
        proof {
            lemma_bit_of(lo, bit_mux);
            lemma_bit_of(hi, bit_mux);
            lemma_bit_of(alo, bit_mux);
            lemma_bit_of(ahi, bit_mux);
        }
        let p_bit0 = ((self.pattern_shift_lo >> bit_mux) & 0x01) as u8;
        let p_bit1 = ((self.pattern_shift_hi >> bit_mux) & 0x01) as u8;
        let show_left_bg = (self.ppumask & 0x02) != 0;
        let x = (self.ppu_dots - 1) as usize;
        proof {
            lemma_two_bits(p_bit0, p_bit1);
        }
        let pattern_color: u8 = if x < 8 && !show_left_bg {
            0
        } else {
            (p_bit1 << 1) | p_bit0
        };
        let a_bit0 = ((self.attrib_shift_lo >> bit_mux) & 0x01) as u8;
        let a_bit1 = ((self.attrib_shift_hi >> bit_mux) & 0x01) as u8;
        proof {
            lemma_two_bits(a_bit0, a_bit1);
        }
        let palette_id = (a_bit1 << 1) | a_bit0;
        let bg_addr: usize = if pattern_color == 0 {
            0
        } else {
            ((palette_id * 4) + pattern_color) as usize
        };
        let x16 = self.ppu_dots - 1;
        let shown = (self.ppumask & 0x10) != 0 && !(x16 < 8 && (self.ppumask & 0x04) == 0);
        let slot = self.first_opaque(cartridge, x16);
        let n = self.line_sprites.len();
        let use_sprite = shown && slot < n && (pattern_color == 0 || (self.oam_ram[4
            * (self.line_sprites[slot] as usize) + 2] & 0x20) == 0);
        let palette_addr: usize = if use_sprite {
            let attr = self.oam_ram[4 * (self.line_sprites[slot] as usize) + 2];
            0x10 + (attr % 4) as usize * 4 + self.sprite_pattern(cartridge, slot, x16) as usize
        } else {
            bg_addr
        };
        let hit = shown && (self.ppumask & 0x08) != 0 && n > 0 && self.line_sprites[0] == 0
            && self.sprite_pattern(cartridge, 0, x16) != 0 && pattern_color != 0 && x16 != 255;
        let entry = self.palette_ram[palette_addr];
        proof {
            lemma_byte(entry);
        }
        let sys_palette_index = entry & 0x3F;
        let rgb_color = NES_SYSTEM_PALETTE[sys_palette_index as usize];
        let y = self.scanlines as usize;
        self.frame_buffer[y * SCREEN_WIDTH + x] = rgb_color;
        if hit {
            self.ppustatus |= 0x40;
        }
    }

    fn shift_bg_registers(&mut self)
        ensures
            final(self)@ == old(self)@.shifted(),
    {
        self.pattern_shift_lo <<= 1;
        self.pattern_shift_hi <<= 1;
        self.attrib_shift_lo <<= 1;
        self.attrib_shift_hi <<= 1;
    }

    fn load_shift_registers(&mut self)
        ensures
            final(self)@ == old(self)@.loaded(),
    {
        self.pattern_shift_lo = (self.pattern_shift_lo & 0xFF00) | (self.pattern_low as u16);
        self.pattern_shift_hi = (self.pattern_shift_hi & 0xFF00) | (self.pattern_high as u16);
        let shift = ((self.v >> 4) & 0x04) | (self.v & 0x02);
        let v0 = self.v;
        proof {
            lemma_word16(v0);
        }
        let palette_id = (self.at_byte >> shift) & 0x03;
        let attr_lo: u16 = if (palette_id & 0x01) != 0 {
            0xFF
        } else {
            0x00
        };
        let attr_hi: u16 = if (palette_id & 0x02) != 0 {
            0xFF
        } else {
            0x00
        };
        self.attrib_shift_lo = (self.attrib_shift_lo & 0xFF00) | attr_lo;
        self.attrib_shift_hi = (self.attrib_shift_hi & 0xFF00) | attr_hi;
    }

    /// Advances `v` one pixel row down (see [`incremented_fine_y`]).
    pub fn increment_fine_y(&mut self)
        ensures
            final(self)@ == (PpuState { v: incremented_fine_y(old(self)@.v), ..old(self)@ }),
    {
        let v0 = self.v;
        if (self.v & 0x7000) != 0x7000 {
            proof {
                lemma_word16(v0);
            }
            self.v += 0x1000;
        } else {
            self.v &= !0x7000;
            let mut y = (self.v & 0x03E0) >> 5;
            let v1 = self.v;
            proof {
                lemma_word16(v1);
            }
            if y == 29 {
                y = 0;
                self.v ^= 0x0800;
            } else if y == 31 {
                y = 0;
            } else {
                y += 1;
            }
            self.v = (self.v & !0x03E0) | (y << 5);
        }
    }

    /// Copies the vertical scroll bits of `t` into `v`.
    pub fn copy_y(&mut self)
        ensures
            final(self)@ == (PpuState { v: copied_y(old(self)@.v, old(self)@.t), ..old(self)@ }),
    {
        let mask: u16 = 0x7BE0;
        self.v = (self.v & !mask) | (self.t & mask);
    }

    /// Copies the horizontal scroll bits of `t` into `v`.
    pub fn copy_x(&mut self)
        ensures
            final(self)@ == (PpuState { v: copied_x(old(self)@.v, old(self)@.t), ..old(self)@ }),
    {
        let mask: u16 = 0x041F;
        self.v = (self.v & !mask) | (self.t & mask);
    }

    fn increment_coarse_x(&mut self)
        ensures
            final(self)@ == (PpuState { v: incremented_coarse_x(old(self)@.v), ..old(self)@ }),
    {
        let v0 = self.v;
        if (self.v & 0x001F) == 31 {
            self.v &= !0x001F;
            self.v ^= 0x0400;
        } else {
            proof {
                lemma_word16(v0);
            }
            self.v += 1;
        }
    }

    /// Background fetches and scroll maintenance of the current dot (see
    /// [`PpuState::fetched`]).
    pub fn process_fetches_and_scrolling(&mut self, cartridge: &Cartridge)
        requires
            old(self)@.inv(),
            cartridge@.inv(),
            cartridge@.chr_ready(),
        ensures
            final(self)@ == old(self)@.fetched(cartridge@),
    {
        let is_visible_scanline = self.scanlines <= 239;
        let is_prerender_scanline = self.scanlines == 261;
        if !is_visible_scanline && !is_prerender_scanline {
            return;
        }
        if (1 <= self.ppu_dots && self.ppu_dots <= 256) || (321 <= self.ppu_dots && self.ppu_dots
            <= 336) {
            let phase = self.ppu_dots % 8;
            if phase == 1 {
                let address = 0x2000 | (self.v & 0x0FFF);
                self.nt_byte = self.ppu_read(cartridge, address);
            } else if phase == 3 {
                let address = 0x23C0 | (self.v & 0x0C00) | ((self.v >> 4) & 0x38) | ((self.v >> 2)
                    & 0x07);
                self.at_byte = self.ppu_read(cartridge, address);
            } else if phase == 5 || phase == 7 {
                let bg_table_base: u16 = if (self.ppuctrl & 0x10) != 0 {
                    0x1000
                } else {
                    0x0000
                };
                let fine_y = (self.v >> 12) & 0x07;
                let nt = self.nt_byte as u16;
                let v0 = self.v;
                proof {
                    lemma_word16(nt);
                    lemma_word16(v0);
                }
                if phase == 5 {
                    let address = bg_table_base + ((self.nt_byte as u16) << 4) + fine_y;
                    self.pattern_low = self.ppu_read(cartridge, address);
                } else {
                    let address = bg_table_base + ((self.nt_byte as u16) << 4) + fine_y + 8;
                    self.pattern_high = self.ppu_read(cartridge, address);
                }
            } else if phase == 0 {
                self.load_shift_registers();
                self.increment_coarse_x();
            }
        }
        if self.ppu_dots == 256 {
            self.increment_fine_y();
        }
        if self.ppu_dots == 257 {
            self.copy_x();
        }
        if is_prerender_scanline && 280 <= self.ppu_dots && self.ppu_dots <= 304 {
            self.copy_y();
        }
    }

    fn draw(&mut self, cartridge: &Cartridge)
        requires
            old(self)@.inv(),
            cartridge@.inv(),
            cartridge@.chr_ready(),
        ensures
            final(self)@ == old(self)@.drawn(cartridge@),
            final(self)@.inv(),
            final(self)@.dots == old(self)@.dots,
            final(self)@.scanline == old(self)@.scanline,
            final(self)@.mask == old(self)@.mask,
            final(self)@.odd_frame == old(self)@.odd_frame,
    {
        if self.scanlines <= 239 && 1 <= self.ppu_dots && self.ppu_dots <= 256 {
            self.render_pixel(cartridge);
        }
        let rendering_enabled = (self.ppumask & 0x18) != 0;
        if rendering_enabled {
            self.process_fetches_and_scrolling(cartridge);
        }
        let is_rendering_line = (self.scanlines <= 239 || self.scanlines == 261)
            && rendering_enabled;
        if is_rendering_line && self.ppu_dots == 257 {
            self.evaluate_sprites();
        }
        if is_rendering_line && ((1 <= self.ppu_dots && self.ppu_dots <= 256) || (321
            <= self.ppu_dots && self.ppu_dots <= 336)) {
            self.shift_bg_registers();
        }
    }

    fn signal(&mut self)
        ensures
            final(self)@ == old(self)@.signalled(),
    {
        if self.scanlines == 241 && self.ppu_dots == 1 {
            self.ppustatus |= 0x80;
            if (self.ppuctrl & 0x80) != 0 {
                self.request_nmi = true;
            }
            self.frame_complete = true;
        }
        if self.scanlines == 261 && self.ppu_dots == 1 {
            self.ppustatus &= !0xE0;
        }
    }

    fn tick(&mut self, rendering_enabled: bool)
        requires
            old(self)@.inv(),
        ensures
            final(self)@ == old(self)@.ticked(rendering_enabled),
            final(self)@.inv(),
    {
        self.ppu_dots += 1;
        if self.scanlines == 261 && rendering_enabled && self.is_odd_frame && self.ppu_dots == 340 {
            self.ppu_dots = 0;
            self.scanlines = 0;
            self.is_odd_frame = !self.is_odd_frame;
            return;
        }
        if self.ppu_dots > 340 {
            self.ppu_dots = 0;
            self.scanlines += 1;
            if self.scanlines > 261 {
                self.scanlines = 0;
                self.is_odd_frame = !self.is_odd_frame;
            }
        }
    }

    /// Runs the PPU for one dot (see [`PpuState::stepped`]).
    pub fn step(&mut self, cartridge: &Cartridge)
        requires
            old(self)@.inv(),
            cartridge@.inv(),
            cartridge@.chr_ready(),
        ensures
            final(self)@ == old(self)@.stepped(cartridge@),
            final(self)@.inv(),
    {
        let rendering_enabled = (self.ppumask & 0x18) != 0;
        self.draw(cartridge);
        self.signal();
        self.tick(rendering_enabled);
    }

    /// A read of the PPU's own address space (see [`PpuState::ppu_read`]).
    pub fn ppu_read(&self, cartridge: &Cartridge, addr: u16) -> (r: u8)
        requires
            self@.inv(),
            cartridge@.inv(),
            addr & 0x3FFF <= 0x1FFF ==> cartridge@.chr_ready(),
        ensures
            r == self@.ppu_read(cartridge@, addr),
    {
        let addr = addr & 0x3FFF;
        if addr <= 0x1FFF {
            cartridge.ppu_read(addr)
        } else if addr <= 0x3EFF {
            let mirrored_addr = addr & 0x2FFF;
            proof {
                lemma_word16(addr);
            }
            let vram_index = cartridge.map_nametable_address(mirrored_addr);
            self.vram[vram_index]
        } else {
            let mut palette_addr = (addr & 0x001F) as usize;
            proof {
                lemma_word16(addr);
            }
            if palette_addr == 0x10 || palette_addr == 0x14 || palette_addr == 0x18 || palette_addr
                == 0x1C {
                palette_addr -= 0x10;
            }
            self.palette_ram[palette_addr]
        }
    }

    /// A write to the PPU's own address space (see [`PpuState::ppu_write`]).
    pub fn ppu_write(&mut self, cartridge: &mut Cartridge, addr: u16, data: u8)
        requires
            old(self)@.inv(),
            old(cartridge)@.inv(),
            addr & 0x3FFF <= 0x1FFF ==> old(cartridge)@.chr_ready(),
        ensures
            (final(self)@, final(cartridge)@) == old(self)@.ppu_write(old(cartridge)@, addr, data),
            final(cartridge)@.inv(),
            final(cartridge)@.prg_ready() == old(cartridge)@.prg_ready(),
            final(cartridge)@.chr_ready() == old(cartridge)@.chr_ready(),
            final(self)@.inv(),
    {
        let addr = addr & 0x3FFF;
        if addr <= 0x1FFF {
            cartridge.ppu_write(addr, data);
        } else if addr <= 0x3EFF {
            let mirrored_addr = addr & 0x2FFF;
            proof {
                lemma_word16(addr);
            }
            let vram_index = cartridge.map_nametable_address(mirrored_addr);
            self.vram[vram_index] = data;
        } else {
            let mut palette_addr = (addr & 0x001F) as usize;
            proof {
                lemma_word16(addr);
            }
            if palette_addr == 0x10 || palette_addr == 0x14 || palette_addr == 0x18 || palette_addr
                == 0x1C {
                palette_addr -= 0x10;
            }
            self.palette_ram[palette_addr] = data;
        }
    }

    /// Whether the PPU asks for an NMI.
    pub fn nmi_requested(&self) -> (r: bool)
        ensures
            r == self@.request_nmi,
    {
        self.request_nmi
    }

    /// Withdraws the NMI request once the bus has latched it.
    pub fn clear_nmi_request(&mut self)
        ensures
            final(self)@ == (PpuState { request_nmi: false, ..old(self)@ }),
    {
        self.request_nmi = false;
    }

    /// Stores one byte of an OAM DMA transfer at the OAM address, which then
    /// advances (as an OAMDATA write does).
    pub fn oam_dma_write(&mut self, data: u8)
        ensures
            final(self)@ == old(self)@.oam_write(data),
    {
        self.oam_ram[self.oam_address as usize] = data;
        self.oam_address = self.oam_address.wrapping_add(1);
    }

    /// A CPU read of a PPU register (see [`PpuState::cpu_read`]).
    pub fn cpu_read(&mut self, cartridge: &Cartridge, addr: u16) -> (r: u8)
        requires
            old(self)@.inv(),
            cartridge@.inv(),
            cartridge@.chr_ready(),
        ensures
            (r, final(self)@) == old(self)@.cpu_read(cartridge@, addr),
            final(self)@.inv(),
    {
        let reg = addr % 8;
        if reg == 2 {
            let status = self.ppustatus;
            self.ppustatus &= !0x80;
            self.w = false;
            status
        } else if reg == 4 {
            self.oam_ram[self.oam_address as usize]
        } else if reg == 7 {
            let current_vram_addr = self.v & 0x3FFF;
            let data = self.ppu_read(cartridge, current_vram_addr);
            let increment: u16 = if (self.ppuctrl & 0x04) != 0 {
                32
            } else {
                1
            };
            self.v = self.v.wrapping_add(increment);
            if current_vram_addr >= 0x3F00 {
                self.vram_read_buffer = self.ppu_read(cartridge, current_vram_addr - 0x1000);
                data
            } else {
                let buffered = self.vram_read_buffer;
                self.vram_read_buffer = data;
                buffered
            }
        } else {
            0
        }
    }

    /// A CPU write of a PPU register (see [`PpuState::cpu_write`]).
    pub fn cpu_write(&mut self, cartridge: &mut Cartridge, addr: u16, data: u8)
        requires
            old(self)@.inv(),
            old(cartridge)@.inv(),
            old(cartridge)@.chr_ready(),
        ensures
            (final(self)@, final(cartridge)@) == old(self)@.cpu_write(old(cartridge)@, addr, data),
            final(cartridge)@.inv(),
            final(cartridge)@.prg_ready() == old(cartridge)@.prg_ready(),
            final(cartridge)@.chr_ready(),
            final(self)@.inv(),
    {
        let reg = addr % 8;
        let t0 = self.t;
        let d = data as u16;
        assert(((t0 & !0x0C00u16) | ((d & 0x03) << 10u16)) <= 0x7FFF && ((t0 & !0x001Fu16) | (d
            >> 3u16)) <= 0x7FFF && ((t0 & !0x73E0u16) | ((d & 0x07) << 12u16) | ((d & 0xF8) << 2u16))
            <= 0x7FFF && ((t0 & !0x7F00u16) | ((d & 0x3F) << 8u16)) <= 0x7FFF && ((t0 & !0x00FFu16)
            | d) <= 0x7FFF) by (bit_vector)
            requires
                t0 <= 0x7FFF,
                d <= 0xFF,
        ;
        if reg == 0 {
            self.ppuctrl = data;
            self.t = (self.t & !0x0C00) | (((data as u16) & 0x03) << 10);
        } else if reg == 1 {
            self.ppumask = data;
        } else if reg == 3 {
            self.oam_address = data;
        } else if reg == 4 {
            self.oam_dma_write(data);
        } else if reg == 5 {
            if !self.w {
                proof {
                    lemma_byte(data);
                }
                self.x = data & 0x07;
                self.t = (self.t & !0x001F) | ((data as u16) >> 3);
                self.w = true;
            } else {
                self.t = (self.t & !0x73E0) | (((data as u16) & 0x07) << 12) | (((data as u16)
                    & 0xF8) << 2);
                self.w = false;
            }
        } else if reg == 6 {
            if !self.w {
                self.t = (self.t & !0x7F00) | (((data as u16) & 0x3F) << 8);
                self.w = true;
            } else {
                self.t = (self.t & !0x00FF) | (data as u16);
                self.v = self.t;
                self.w = false;
            }
        } else if reg == 7 {
            let current_vram_addr = self.v & 0x3FFF;
            self.ppu_write(cartridge, current_vram_addr, data);
            let increment: u16 = if (self.ppuctrl & 0x04) != 0 {
                32
            } else {
                1
            };
            self.v = self.v.wrapping_add(increment);
        }
    }
}

/// Two writes to PPUADDR (0x2006), high byte first, set the VRAM address
/// `v` (and `t`) to the 14-bit address they spell, and reset the latch.
pub proof fn lemma_ppuaddr(p: PpuState, cart: CartState, hi: u8, lo: u8)
    requires
        p.inv(),
        !p.w,
    ensures
        ({
            let (p1, c1) = p.cpu_write(cart, 0x2006, hi);
            let (p2, c2) = p1.cpu_write(c1, 0x2006, lo);
            &&& p2.v == (hi & 0x3F) as int * 256 + lo as int
            &&& p2.t == p2.v
            &&& !p2.w
            &&& c2 == cart
        }),
{
    let t0 = p.t;
    let h = hi as u16;
    let l = lo as u16;
    let t1 = (t0 & !0x7F00u16) | ((h & 0x3F) << 8u16);
    let t2 = (t1 & !0x00FFu16) | l;
    assert(t2 == (h & 0x3F) * 256 + l) by (bit_vector)
        requires
            t0 <= 0x7FFF,
            t1 == (t0 & !0x7F00u16) | ((h & 0x3F) << 8u16),
            t2 == (t1 & !0x00FFu16) | l,
            h <= 0xFF,
            l <= 0xFF,
    ;
    assert((hi & 0x3F) as u16 == h & 0x3F) by (bit_vector)
        requires
            h == hi as u16,
    ;
}

/// Two writes to PPUSCROLL (0x2005), X first, set fine X and the coarse X,
/// coarse Y and fine Y of `t` to the scroll they give, and reset the latch.
pub proof fn lemma_ppuscroll(p: PpuState, cart: CartState, xs: u8, ys: u8)
    requires
        !p.w,
    ensures
        ({
            let (p1, c1) = p.cpu_write(cart, 0x2005, xs);
            let (p2, c2) = p1.cpu_write(c1, 0x2005, ys);
            &&& p2.x == xs % 8
            &&& coarse_x(p2.t) == xs / 8
            &&& fine_y(p2.t) == ys % 8
            &&& coarse_y(p2.t) == ys / 8
            &&& !p2.w
        }),
{
    let t0 = p.t;
    let x = xs as u16;
    let y = ys as u16;
    let t1 = (t0 & !0x001Fu16) | (x >> 3u16);
    let t2 = (t1 & !0x73E0u16) | ((y & 0x07) << 12u16) | ((y & 0xF8) << 2u16);
    assert(t2 & 0x001F == x / 8 && (t2 >> 12u16) & 0x07 == y % 8 && (t2 >> 5u16) & 0x1F == y / 8)
        by (bit_vector)
        requires
            t1 == (t0 & !0x001Fu16) | (x >> 3u16),
            t2 == (t1 & !0x73E0u16) | ((y & 0x07) << 12u16) | ((y & 0xF8) << 2u16),
            x <= 0xFF,
            y <= 0xFF,
    ;
    lemma_byte(xs);
}

/// Palette RAM keeps what is written: a read gives the byte last written
/// to the same palette cell, and 0x3F10/14/18/1C share the cells of
/// 0x3F00/04/08/0C.
pub proof fn lemma_palette_write_read(p: PpuState, cart: CartState, a: u16, b: u16, data: u8)
    requires
        p.inv(),
        0x3F00 <= a <= 0x3FFF,
        0x3F00 <= b <= 0x3FFF,
    ensures
        p.ppu_write(cart, a, data).0.ppu_read(cart, b) == if palette_index(a) == palette_index(b) {
            data
        } else {
            p.ppu_read(cart, b)
        },
        p.ppu_write(cart, a, data).1 == cart,
        palette_index(0x3F10) == palette_index(0x3F00),
        palette_index(0x3F14) == palette_index(0x3F04),
        palette_index(0x3F18) == palette_index(0x3F08),
        palette_index(0x3F1C) == palette_index(0x3F0C),
{
    lemma_word16(a);
    lemma_word16(b);
}

/// Nametable RAM keeps what is written: a read gives the byte last written
/// to the same physical cell under the cartridge's mirroring.
pub proof fn lemma_nametable_write_read(p: PpuState, cart: CartState, a: u16, b: u16, data: u8)
    requires
        p.inv(),
        0x2000 <= a <= 0x2FFF,
        0x2000 <= b <= 0x2FFF,
    ensures
        p.ppu_write(cart, a, data).0.ppu_read(cart, b) == if nametable_index(
            cart.current_mirroring(),
            a,
        ) == nametable_index(cart.current_mirroring(), b) {
            data
        } else {
            p.ppu_read(cart, b)
        },
{
    lemma_word16(a);
    lemma_word16(b);
}

/// Vertical blank starts at line 241, dot 1: the status flag rises, the
/// frame is complete, and an NMI is requested when PPUCTRL bit 7 is set.
pub proof fn lemma_vblank_start(p: PpuState, cart: CartState)
    requires
        p.inv(),
        p.scanline == 241,
        p.dots == 1,
    ensures
        p.stepped(cart).status & 0x80 != 0,
        p.stepped(cart).frame_complete,
        p.ctrl & 0x80 != 0 ==> p.stepped(cart).request_nmi,
        p.stepped(cart).scanline == 241 && p.stepped(cart).dots == 2,
{
    lemma_byte(p.status);
}

/// The sprites found among the first `n` OAM entries are distinct OAM
/// numbers below `n`, in increasing order, each covering the next line,
/// and every sprite below `n` that covers it is among them.
proof fn lemma_in_range(p: PpuState, line: int, n: nat)
    requires
        n <= 64,
    ensures
        forall|k: int|
            0 <= k < p.in_range(line, n).len() ==> #[trigger] p.in_range(line, n)[k] < n && p.covers(
                p.in_range(line, n)[k] as int,
                line,
            ),
        forall|k: int, j: int|
            0 <= k < j < p.in_range(line, n).len() ==> #[trigger] p.in_range(line, n)[k]
                < #[trigger] p.in_range(line, n)[j],
        forall|i: int| 0 <= i < n && #[trigger] p.covers(i, line) ==> p.in_range(line, n).contains(i as u8),
    decreases n,
{
    if n > 0 {
        lemma_in_range(p, line, (n - 1) as nat);
        let prev = p.in_range(line, (n - 1) as nat);
        let cur = p.in_range(line, n);
        if p.covers(n - 1, line) {
            assert(cur == prev.push((n - 1) as u8));
            assert(((n - 1) as u8) as int == n - 1);
            assert forall|k: int| 0 <= k < prev.len() implies cur[k] == prev[k] by {}
            assert(cur[prev.len() as int] == (n - 1) as u8);
            assert forall|i: int| 0 <= i < n && #[trigger] p.covers(i, line) implies cur.contains(
                i as u8,
            ) by {
                if i < n - 1 {
                    let k = choose|k: int| 0 <= k < prev.len() && prev[k] == i as u8;
                    assert(cur[k] == i as u8);
                } else {
                    assert(cur[prev.len() as int] == i as u8);
                }
            }
        } else {
            assert(cur == prev);
        }
    }
}

/// Sprite evaluation on a visible line: the sprites that cover the next
/// line are those whose Y byte is at most the line and within the sprite
/// height (8, or 16 with PPUCTRL bit 5) of it; listed in increasing OAM
/// order they are all selected when there are at most eight, and
/// otherwise the first eight, with the overflow flag (PPUSTATUS bit 5)
/// raised.
pub proof fn lemma_sprite_evaluation(p: PpuState)
    requires
        p.inv(),
        p.scanline <= 239,
    ensures
        ({
            let e = p.evaluated();
            let line = p.scanline as int;
            let h: int = if p.ctrl & 0x20 != 0 {
                16
            } else {
                8
            };
            let found = p.in_range(line, 64);
            &&& forall|k: int|
                0 <= k < found.len() ==> #[trigger] found[k] < 64 && p.oam[4 * found[k]] as int <= line
                    < p.oam[4 * found[k]] as int + h
            &&& forall|k: int, j: int| 0 <= k < j < found.len() ==> #[trigger] found[k] < #[trigger] found[j]
            &&& forall|i: int|
                0 <= i < 64 && #[trigger] p.oam[4 * i] as int <= line < p.oam[4 * i] as int + h
                    ==> found.contains(i as u8)
            &&& found.len() <= 8 ==> e.sprites == found && e.status == p.status
            &&& found.len() > 8 ==> e.sprites == found.take(8) && e.status == p.status | 0x20
        }),
{
    lemma_in_range(p, p.scanline as int, 64);
    let line = p.scanline as int;
    let found = p.in_range(line, 64);
    assert forall|i: int|
        0 <= i < 64 && #[trigger] p.oam[4 * i] as int <= line < p.oam[4 * i] as int + (if p.ctrl
            & 0x20 != 0 {
            16int
        } else {
            8
        }) implies found.contains(i as u8) by {
        assert(p.covers(i, line));
    }
}

/// At dot 1 of the pre-render line (261) the vblank, sprite-0 hit and
/// sprite overflow flags (PPUSTATUS bits 7, 6, 5) are cleared and the low
/// five bits kept.
pub proof fn lemma_prerender_clears_status(p: PpuState, cart: CartState)
    requires
        p.inv(),
        p.scanline == 261,
        p.dots == 1,
    ensures
        p.stepped(cart).status == p.status & 0x1F,
{
    let st = p.drawn(cart).status;
    assert(st & !0xE0u8 == st & 0x1F) by (bit_vector);
}

/// Stepping keeps the dot and line counters in range: 341 dots per line,
/// 262 lines per frame.
pub proof fn lemma_step_keeps_counters(p: PpuState, cart: CartState)
    requires
        p.inv(),
    ensures
        p.stepped(cart).dots <= 340,
        p.stepped(cart).scanline <= 261,
        p.stepped(cart).dots == 0 || p.stepped(cart).dots == p.dots + 1,
{
}

/// The background pattern fetches: on the fetch dots of a rendering line,
/// the low plane of the tile's row is read at dot 5 of each 8-dot group
/// and the high plane at dot 7, from the pattern table that PPUCTRL bit 4
/// selects (0x0000 or 0x1000), at 16 bytes per tile number and one byte
/// per fine-Y row (bits 12-14 of `v`); the high plane is 8 bytes on. No
/// other PPUCTRL bit takes part.
pub proof fn lemma_bg_pattern_fetch(p: PpuState, cart: CartState)
    requires
        p.scanline <= 239 || p.scanline == 261,
        (1 <= p.dots <= 256) || (321 <= p.dots <= 336),
    ensures
        ({
            let base: int = if p.ctrl & 0x10 != 0 {
                0x1000
            } else {
                0
            };
            let row = (p.v as int / 0x1000) % 8;
            &&& p.dots % 8 == 5 ==> p.fetched(cart).pattern_low == p.ppu_read(
                cart,
                (base + p.nt_byte as int * 16 + row) as u16,
            )
            &&& p.dots % 8 == 7 ==> p.fetched(cart).pattern_high == p.ppu_read(
                cart,
                (base + p.nt_byte as int * 16 + row + 8) as u16,
            )
        }),
{
    let v = p.v;
    assert((v >> 12u16) & 0x07 == (v / 0x1000) % 8) by (bit_vector);
}

/// PPUDATA (a register number 7 mod 8) moves the VRAM address on after
/// each CPU read or write: by 32 when PPUCTRL bit 2 is set, else by 1,
/// modulo 2^16. A write goes to the address `v` held before it.
pub proof fn lemma_ppudata_advances(p: PpuState, cart: CartState, address: u16, data: u8)
    requires
        address % 8 == 7,
    ensures
        ({
            let step: int = if p.ctrl & 0x04 != 0 {
                32
            } else {
                1
            };
            let next = ((p.v as int + step) % 0x10000) as u16;
            &&& p.cpu_write(cart, address, data).0.v == next
            &&& p.cpu_read(cart, address).1.v == next
            &&& p.cpu_write(cart, address, data) == ({
                let (q, c) = p.ppu_write(cart, p.v & 0x3FFF, data);
                (PpuState { v: next, ..q }, c)
            })
        }),
{
}

/// A sprite's pattern value at pixel `x`: 0 outside the 8 columns from
/// its X byte and outside the rows below its Y byte (8, or 16 in 8x16
/// mode); inside, the row counts down from the bottom when attribute bit 7
/// flips it vertically, and the column counts from the left (bit 6 set)
/// or from the right; the pattern table is PPUCTRL bit 3's for 8x8 sprites
/// and tile bit 0's for 8x16 ones, whose top half is the even tile and
/// bottom half the next; the value is the high plane's bit (8 bytes on)
/// over the low plane's bit.
pub proof fn lemma_sprite_pattern(p: PpuState, cart: CartState, slot: int, x: int)
    requires
        0 <= slot < p.sprites.len(),
    ensures
        ({
            let i = p.sprites[slot] as int;
            let tile = p.oam[4 * i + 1];
            let attr = p.oam[4 * i + 2];
            let col = x - p.oam[4 * i + 3] as int;
            let line_row = p.scanline as int - 1 - p.oam[4 * i] as int;
            let tall = p.ctrl & 0x20 != 0;
            let h: int = if tall {
                16
            } else {
                8
            };
            let row = if attr & 0x80 != 0 {
                h - 1 - line_row
            } else {
                line_row
            };
            let table: int = if tall {
                if tile & 1 != 0 {
                    0x1000
                } else {
                    0
                }
            } else if p.ctrl & 0x08 != 0 {
                0x1000
            } else {
                0
            };
            let t: int = if tall {
                (tile & 0xFE) as int + row / 8
            } else {
                tile as int
            };
            let addr = table + t * 16 + row % 8;
            let pos = (if attr & 0x40 != 0 {
                col
            } else {
                7 - col
            }) as u8;
            let lo = p.ppu_read(cart, addr as u16);
            let hi = p.ppu_read(cart, (addr + 8) as u16);
            p.sprite_pattern(cart, slot, x) == if 0 <= col < 8 && 0 <= line_row < h {
                ((hi >> pos) & 1) * 2 + ((lo >> pos) & 1)
            } else {
                0
            }
        }),
{
    let i = p.sprites[slot] as int;
    let tile = p.oam[4 * i + 1];
    let col = x - p.oam[4 * i + 3] as int;
    let attr = p.oam[4 * i + 2];
    let pos = (if attr & 0x40 != 0 {
        col
    } else {
        7 - col
    }) as u8;
    let line_row = p.scanline as int - 1 - p.oam[4 * i] as int;
    let h: int = if p.ctrl & 0x20 != 0 { 16 } else { 8 };
    if 0 <= col < 8 && 0 <= line_row < h {
        let row = if attr & 0x80 != 0 {
            h - 1 - line_row
        } else {
            line_row
        };
        let table: int = if p.ctrl & 0x20 != 0 {
            if tile & 1 != 0 { 0x1000 } else { 0 }
        } else if p.ctrl & 0x08 != 0 {
            0x1000
        } else {
            0
        };
        let t: int = if p.ctrl & 0x20 != 0 { (tile & 0xFE) as int + row / 8 } else { tile as int };
        let addr = table + t * 16 + row % 8;
        let lo = p.ppu_read(cart, addr as u16);
        let hi = p.ppu_read(cart, (addr + 8) as u16);
        assert((tile & 1 != 0) == (tile % 2 == 1) && tile & 0xFE == tile - tile % 2 && (lo >> pos)
            & 1 == (lo >> pos) % 2 && (hi >> pos) & 1 == (hi >> pos) % 2) by (bit_vector);
    }
}

/// Of the line's sprites, the one drawn at pixel `x` is the first opaque
/// one: every earlier slot is transparent there, and the slot found (if
/// any) is opaque.
pub proof fn lemma_first_opaque(p: PpuState, cart: CartState, k: nat, x: int)
    requires
        k <= p.sprites.len(),
    ensures
        k <= p.first_opaque(cart, k, x) <= p.sprites.len(),
        forall|j: int|
            k <= j < p.first_opaque(cart, k, x) ==> #[trigger] p.sprite_pattern(cart, j, x) == 0,
        p.first_opaque(cart, k, x) < p.sprites.len() ==> p.sprite_pattern(
            cart,
            p.first_opaque(cart, k, x) as int,
            x,
        ) != 0,
    decreases p.sprites.len() - k,
{
    if k < p.sprites.len() && p.sprite_pattern(cart, k as int, x) == 0 {
        lemma_first_opaque(p, cart, k + 1, x);
    }
}

/// Compositing a pixel: where sprites show and the first opaque sprite is
/// in front (attribute bit 5 clear) or the background is transparent, the
/// pixel takes sprite palette `attr & 3` (cell 0x10 | palette << 2 |
/// value); otherwise the background's colour. Sprite 0 opaque over an
/// opaque background, with both layers shown and x < 255, raises
/// PPUSTATUS bit 6; nothing else changes the status.
pub proof fn lemma_sprite_compositing(p: PpuState, cart: CartState)
    requires
        p.inv(),
        p.scanline <= 239,
        1 <= p.dots <= 256,
    ensures
        ({
            let x = p.dots - 1;
            let bg = p.bg_pattern();
            let slot = p.first_opaque(cart, 0, x);
            let shown = p.mask & 0x10 != 0 && (x >= 8 || p.mask & 0x04 != 0);
            let r = p.rendered(cart);
            let idx = p.scanline as int * 256 + x;
            &&& (shown && slot < p.sprites.len() && (bg == 0 || p.oam[4 * p.sprites[slot as int]
                + 2] & 0x20 == 0)) ==> r.frame[idx] == NES_SYSTEM_PALETTE@[(p.palette[(0x10 | ((p.oam[4
                * p.sprites[slot as int] + 2] & 3) << 2u8) | p.sprite_pattern(cart, slot as int, x))
                as int] & 0x3F) as int]
            &&& !(shown && slot < p.sprites.len() && (bg == 0 || p.oam[4 * p.sprites[slot as int]
                + 2] & 0x20 == 0)) ==> r.frame[idx] == NES_SYSTEM_PALETTE@[(p.palette[p.bg_palette_addr()]
                & 0x3F) as int]
            &&& r.status == if shown && p.mask & 0x08 != 0 && p.sprites.len() > 0 && p.sprites[0]
                == 0 && p.sprite_pattern(cart, 0, x) != 0 && bg != 0 && x != 255 {
                p.status | 0x40
            } else {
                p.status
            }
        }),
{
    let x = p.dots - 1;
    let slot = p.first_opaque(cart, 0, x);
    lemma_first_opaque(p, cart, 0, x);
    if slot < p.sprites.len() {
        let attr = p.oam[4 * p.sprites[slot as int] + 2];
        let v = p.sprite_pattern(cart, slot as int, x);
        lemma_sprite_pattern(p, cart, slot as int, x);
        assert(v <= 3);
        assert(0x10 + (attr % 4) as int * 4 + v as int == (0x10 | ((attr & 3) << 2u8) | v)) by (
        bit_vector)
            requires
                v <= 3,
        ;
    }
}

/// The dot's position within the frame: 341 dots per line.
pub open spec fn frame_position(p: PpuState) -> int {
    p.scanline as int * 341 + p.dots as int
}

/// The PPU after `n` dots with the cartridge `cart`.
pub open spec fn dots_run(p: PpuState, cart: CartState, n: nat) -> PpuState
    decreases n,
{
    if n == 0 {
        p
    } else {
        dots_run(p, cart, (n - 1) as nat).stepped(cart)
    }
}

/// The dots in a frame: 341 by 262, one fewer in an odd frame while
/// rendering.
pub open spec fn frame_dots(odd: bool, rendering: bool) -> int {
    if odd && rendering {
        89341
    } else {
        89342
    }
}

/// One dot keeps PPUMASK and the frame parity, and moves the frame
/// position on by one, back to 0 after the last dot of the frame.
proof fn lemma_dot_position(p: PpuState, cart: CartState)
    requires
        p.dots <= 340,
        p.scanline <= 261,
    ensures
        p.stepped(cart).mask == p.mask,
        p.stepped(cart).dots <= 340,
        p.stepped(cart).scanline <= 261,
        frame_position(p) + 1 < frame_dots(p.odd_frame, p.rendering_enabled()) ==> frame_position(
            p.stepped(cart),
        ) == frame_position(p) + 1 && p.stepped(cart).odd_frame == p.odd_frame,
        frame_position(p) + 1 == frame_dots(p.odd_frame, p.rendering_enabled()) ==> frame_position(
            p.stepped(cart),
        ) == 0 && p.stepped(cart).odd_frame == !p.odd_frame,
{
    assert(p.drawn(cart).signalled().dots == p.dots);
    assert(p.drawn(cart).signalled().scanline == p.scanline);
    assert(p.drawn(cart).signalled().odd_frame == p.odd_frame);
    assert(p.drawn(cart).signalled().mask == p.mask);
}

/// Frame timing: from the first dot of a frame, with PPUMASK fixed, the
/// PPU passes every position of the frame once, in order, and is back at
/// the first dot of the next frame (of the other parity) after 89342
/// dots, or 89341 for an odd frame while rendering.
pub proof fn lemma_frame_length(p: PpuState, cart: CartState, k: nat)
    requires
        p.inv(),
        p.scanline == 0,
        p.dots == 0,
        k <= frame_dots(p.odd_frame, p.rendering_enabled()),
    ensures
        dots_run(p, cart, k).dots <= 340,
        dots_run(p, cart, k).scanline <= 261,
        dots_run(p, cart, k).mask == p.mask,
        k < frame_dots(p.odd_frame, p.rendering_enabled()) ==> frame_position(dots_run(p, cart, k))
            == k && dots_run(p, cart, k).odd_frame == p.odd_frame,
        k == frame_dots(p.odd_frame, p.rendering_enabled()) ==> dots_run(p, cart, k).scanline == 0
            && dots_run(p, cart, k).dots == 0 && dots_run(p, cart, k).odd_frame == !p.odd_frame,
    decreases k,
{
    if k > 0 {
        lemma_frame_length(p, cart, (k - 1) as nat);
        let q = dots_run(p, cart, (k - 1) as nat);
        lemma_dot_position(q, cart);
        let r = q.stepped(cart);
        if k == frame_dots(p.odd_frame, p.rendering_enabled()) {
            assert(frame_position(r) == 0);
            assert(r.scanline == 0 && r.dots == 0) by (nonlinear_arith)
                requires
                    r.scanline as int * 341 + r.dots as int == 0,
                    r.dots >= 0,
                    r.scanline >= 0,
            ;
        }
    }
}

/// Moving one tile right: coarse X counts up modulo 32, the horizontal
/// nametable bit flips exactly on the wrap, and the vertical scroll bits
/// are kept.
pub proof fn lemma_coarse_x_increment(v: u16)
    ensures
        coarse_x(incremented_coarse_x(v)) == (coarse_x(v) + 1) % 32,
        (incremented_coarse_x(v) & 0x0400) == if coarse_x(v) == 31 {
            (v & 0x0400) ^ 0x0400
        } else {
            v & 0x0400
        },
        incremented_coarse_x(v) & 0x7BE0 == v & 0x7BE0,
{
    let w = incremented_coarse_x(v);
    assert(w == if v & 0x001F == 31 {
        (v & !0x001Fu16) ^ 0x0400
    } else {
        (v + 1) as u16
    });
    lemma_word16(v);
    assert(w & 0x001F == ((v & 0x001F) + 1) % 32 && (w & 0x0400) == (if v & 0x001F == 31 {
        (v & 0x0400) ^ 0x0400
    } else {
        v & 0x0400
    }) && w & 0x7BE0 == v & 0x7BE0) by (bit_vector)
        requires
            w == if v & 0x001F == 31 {
                (v & !0x001Fu16) ^ 0x0400
            } else {
                (v + 1) as u16
            },
            v & 0x001F != 31 ==> v < 0xFFFF,
    ;
}

/// Moving one pixel row down: fine Y counts up; when it wraps, coarse Y
/// counts up, and at row 29 wraps to 0 switching the vertical nametable.
/// The horizontal scroll bits are kept.
pub proof fn lemma_fine_y_increment(v: u16)
    ensures
        fine_y(v) < 7 ==> fine_y(incremented_fine_y(v)) == fine_y(v) + 1 && coarse_y(
            incremented_fine_y(v),
        ) == coarse_y(v),
        fine_y(v) == 7 ==> fine_y(incremented_fine_y(v)) == 0,
        fine_y(v) == 7 && coarse_y(v) == 29 ==> coarse_y(incremented_fine_y(v)) == 0 && (
        incremented_fine_y(v) & 0x0800) != (v & 0x0800),
        fine_y(v) == 7 && coarse_y(v) < 29 ==> coarse_y(incremented_fine_y(v)) == coarse_y(v) + 1,
        incremented_fine_y(v) & 0x041F == v & 0x041F,
{
    let w = incremented_fine_y(v);
    let v1 = v & !0x7000u16;
    let y = (v1 & 0x03E0) >> 5u16;
    lemma_word16(v);
    lemma_word16(v1);
    assert({
        &&& ((v >> 12u16) & 0x07 < 7 ==> (w >> 12u16) & 0x07 == ((v >> 12u16) & 0x07) + 1 && (w
            >> 5u16) & 0x1F == (v >> 5u16) & 0x1F)
        &&& ((v >> 12u16) & 0x07 == 7 ==> (w >> 12u16) & 0x07 == 0)
        &&& ((v >> 12u16) & 0x07 == 7 && (v >> 5u16) & 0x1F == 29 ==> (w >> 5u16) & 0x1F == 0 && (w
            & 0x0800) != (v & 0x0800))
        &&& ((v >> 12u16) & 0x07 == 7 && (v >> 5u16) & 0x1F < 29 ==> (w >> 5u16) & 0x1F == ((v
            >> 5u16) & 0x1F) + 1)
        &&& w & 0x041F == v & 0x041F
    }) by (bit_vector)
        requires
            v1 == v & !0x7000u16,
            y == (v1 & 0x03E0) >> 5u16,
            w == if v & 0x7000 != 0x7000 {
                (v + 0x1000) as u16
            } else if y == 29 {
                ((v1 ^ 0x0800) & !0x03E0u16) | (0u16 << 5u16)
            } else if y == 31 {
                (v1 & !0x03E0u16) | (0u16 << 5u16)
            } else {
                (v1 & !0x03E0u16) | (((y + 1) as u16) << 5u16)
            },
            v & 0x7000 != 0x7000 ==> v as int + 0x1000 <= 0xFFFF,
    ;
}

} // verus!
