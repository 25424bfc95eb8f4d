//! Turning a PPU frame into the bytes of a streaming texture in the
//! ARGB8888 format (bytes B, G, R, A in memory order).
use vstd::prelude::*;
use vstd::arithmetic::div_mod::lemma_fundamental_div_mod_converse;
use crate::ppu::{FRAME_PIXELS, SCREEN_HEIGHT, SCREEN_WIDTH};

verus! {

/// Bytes of one texture row of 256 pixels.
pub const ROW_BYTES: usize = 1024;

/// Byte `k` of the texture pixel for a 0xRRGGBB colour: blue, green, red,
/// then an opaque alpha.
pub open spec fn channel(pixel: u32, k: int) -> u8 {
    if k == 0 {
        (pixel % 256) as u8
    } else if k == 1 {
        ((pixel / 256) % 256) as u8
    } else if k == 2 {
        ((pixel / 65536) % 256) as u8
    } else {
        0xFF
    }
}

/// What byte `i` of a texture with `pitch` bytes per row holds once the
/// frame is written: the channels of the pixel it belongs to, or, in the
/// row padding and past the last row, what was there before.
pub open spec fn texture_byte(frame: Seq<u32>, before: Seq<u8>, pitch: int, i: int) -> u8 {
    let y = i / pitch;
    let off = i % pitch;
    if y < 240 && off < 1024 {
        channel(frame[y * 256 + off / 4], off % 4)
    } else {
        before[i]
    }
}

proof fn lemma_position(pitch: int, y: int, off: int)
    requires
        pitch >= 1024,
        0 <= y,
        0 <= off < pitch,
    ensures
        (y * pitch + off) / pitch == y,
        (y * pitch + off) % pitch == off,
{
    lemma_fundamental_div_mod_converse(y * pitch + off, pitch, y, off);
}

/// Writes a frame of 0xRRGGBB pixels into texture memory laid out with
/// `pitch` bytes per row (see [`texture_byte`]).
pub fn write_frame_argb8888(frame: &[u32], buf: &mut [u8], pitch: usize)
    requires
        frame@.len() >= FRAME_PIXELS,
        pitch >= ROW_BYTES,
        old(buf)@.len() >= 239 * pitch + ROW_BYTES,
    ensures
        final(buf)@.len() == old(buf)@.len(),
        forall|i: int|
            0 <= i < old(buf)@.len() ==> #[trigger] final(buf)@[i] == texture_byte(
                frame@,
                old(buf)@,
                pitch as int,
                i,
            ),
{
    let ghost before = buf@;
    let ghost p = pitch as int;
    let len = buf.len();
    let mut y: usize = 0;
    while y < SCREEN_HEIGHT
        invariant
            y <= 240,
            frame@.len() >= FRAME_PIXELS,
            pitch >= ROW_BYTES,
            p == pitch as int,
            buf@.len() == before.len(),
            len == before.len(),
            before.len() >= 239 * pitch + ROW_BYTES,
            forall|i: int|
                0 <= i < buf@.len() ==> #[trigger] buf@[i] == if i < y * p {
                    texture_byte(frame@, before, p, i)
                } else {
                    before[i]
                },
        decreases 240 - y,
    {
        assert(y * p + 1024 <= before.len()) by (nonlinear_arith)
            requires
                y < 240,
                p >= 1024,
                before.len() >= 239 * p + 1024,
        ;
        let row = y * pitch;
        let mut x: usize = 0;
        while x < SCREEN_WIDTH
            invariant
                y < 240,
                x <= 256,
                row == y * p,
                row + 1024 <= before.len(),
                len == before.len(),
                frame@.len() >= FRAME_PIXELS,
                pitch >= ROW_BYTES,
                p == pitch as int,
                buf@.len() == before.len(),
                forall|i: int|
                    0 <= i < buf@.len() ==> #[trigger] buf@[i] == if i < row + x * 4 {
                        texture_byte(frame@, before, p, i)
                    } else {
                        before[i]
                    },
            decreases 256 - x,
        {
            let pixel = frame[y * SCREEN_WIDTH + x];
            let offset = row + x * 4;
            let b = (pixel & 0xFF) as u8;
            let g = ((pixel >> 8) & 0xFF) as u8;
            let r = ((pixel >> 16) & 0xFF) as u8;
            assert(pixel & 0xFF == pixel % 256 && (pixel >> 8) & 0xFF == (pixel / 256) % 256 && (
            pixel >> 16) & 0xFF == (pixel / 65536) % 256) by (bit_vector);
            proof {
                let xi = x as int;
                lemma_position(p, y as int, 4 * xi);
                lemma_position(p, y as int, 4 * xi + 1);
                lemma_position(p, y as int, 4 * xi + 2);
                lemma_position(p, y as int, 4 * xi + 3);
                assert((4 * xi) / 4 == xi && (4 * xi) % 4 == 0);
                assert((4 * xi + 1) / 4 == xi && (4 * xi + 1) % 4 == 1);
                assert((4 * xi + 2) / 4 == xi && (4 * xi + 2) % 4 == 2);
                assert((4 * xi + 3) / 4 == xi && (4 * xi + 3) % 4 == 3);
            }
            let ghost prev = buf@;
            buf[offset] = b;
            buf[offset + 1] = g;
            buf[offset + 2] = r;
            buf[offset + 3] = 0xFF;
            assert forall|i: int| 0 <= i < buf@.len() implies #[trigger] buf@[i] == if i < row + (x
                + 1) * 4 {
                texture_byte(frame@, before, p, i)
            } else {
                before[i]
            } by {
                if offset <= i < offset + 4 {
                    assert((i - offset) / 1 == i - offset);
                } else {
                    assert(buf@[i] == prev[i]);
                }
            }
            x += 1;
        }
        assert forall|i: int| 0 <= i < buf@.len() implies #[trigger] buf@[i] == if i < (y + 1) * p {
            texture_byte(frame@, before, p, i)
        } else {
            before[i]
        } by {
            assert((y + 1) * p == y * p + p) by (nonlinear_arith);
            if row + 1024 <= i < (y + 1) * p {
                lemma_position(p, y as int, i - row);
            }
        }
        y += 1;
    }
    assert forall|i: int| 0 <= i < buf@.len() implies #[trigger] buf@[i] == texture_byte(
        frame@,
        before,
        p,
        i,
    ) by {
        if i >= 240 * p {
            assert(i / p >= 240) by (nonlinear_arith)
                requires
                    i >= 240 * p,
                    p > 0,
            ;
        }
    }
}

} // verus!
