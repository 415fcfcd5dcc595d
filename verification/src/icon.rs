//! The tray icon bitmap: a filled colour disc on a transparent background,
//! drawn into a 32-by-32 canvas of row-major RGBA bytes. A pixel is part of
//! the disc when its squared distance from the canvas centre is at most the
//! squared radius, which is the same set of pixels as comparing real
//! distances, with no rounding to go wrong.

use vstd::prelude::*;

verus! {

/// Width and height of the square icon canvas, in pixels.
pub const ICON_SIZE: usize = 32;

/// Whether pixel (x, y) lies in the disc: squared distance from the centre
/// (16, 16) at most the squared radius (14, the half size minus a margin).
pub open spec fn in_disc(x: int, y: int) -> bool {
    (x - 16) * (x - 16) + (y - 16) * (y - 16) <= 14 * 14
}

/// The x coordinate of the pixel that byte `i` of the buffer belongs to.
pub open spec fn pixel_x(i: int) -> int {
    (i / 4) % 32
}

/// The y coordinate of the pixel that byte `i` of the buffer belongs to.
pub open spec fn pixel_y(i: int) -> int {
    (i / 4) / 32
}

/// Byte `c` (0 red, 1 green, 2 blue, 3 alpha) of the RGBA quad of pixel
/// (x, y): the colour, fully opaque, inside the disc; transparent black
/// outside.
pub open spec fn disc_byte(r: u8, g: u8, b: u8, x: int, y: int, c: int) -> u8 {
    if in_disc(x, y) {
        if c == 0 {
            r
        } else if c == 1 {
            g
        } else if c == 2 {
            b
        } else {
            255
        }
    } else {
        0
    }
}

/// The buffer is exactly the disc bitmap of the given colour.
pub open spec fn is_disc_bitmap(buf: Seq<u8>, r: u8, g: u8, b: u8) -> bool {
    &&& buf.len() == 32 * 32 * 4
    &&& forall|i: int|
        0 <= i < buf.len() ==> #[trigger] buf[i] == disc_byte(r, g, b, pixel_x(i), pixel_y(i), i % 4)
}

/// Draw the icon: a filled disc of the given colour on a transparent
/// 32-by-32 canvas, as row-major RGBA bytes.
pub fn icon_rgba(r: u8, g: u8, b: u8) -> (buf: Vec<u8>)
    ensures
        is_disc_bitmap(buf@, r, g, b),
{
    let mut buf: Vec<u8> = Vec::new();
    let mut y: usize = 0;
    while y < ICON_SIZE
        invariant
            y <= 32,
            buf@.len() == y * 128,
            forall|i: int|
                0 <= i < buf@.len() ==> #[trigger] buf@[i] == disc_byte(
                    r,
                    g,
                    b,
                    pixel_x(i),
                    pixel_y(i),
                    i % 4,
                ),
        decreases 32 - y,
    {
        let mut x: usize = 0;
        while x < ICON_SIZE
            invariant
                y < 32,
                x <= 32,
                buf@.len() == y * 128 + x * 4,
                forall|i: int|
                    0 <= i < buf@.len() ==> #[trigger] buf@[i] == disc_byte(
                        r,
                        g,
                        b,
                        pixel_x(i),
                        pixel_y(i),
                        i % 4,
                    ),
            decreases 32 - x,
        {
            let dx: i64 = (x as i64) - 16;
            let dy: i64 = (y as i64) - 16;
            proof {
                assert(0 <= dx * dx <= 256) by (nonlinear_arith)
                    requires
                        -16 <= dx <= 16,
                ;
                assert(0 <= dy * dy <= 256) by (nonlinear_arith)
                    requires
                        -16 <= dy <= 16,
                ;
            }
            let d2: i64 = dx * dx + dy * dy;
            if d2 <= 196 {
                buf.push(r);
                buf.push(g);
                buf.push(b);
                buf.push(255);
            } else {
                buf.push(0);
                buf.push(0);
                buf.push(0);
                buf.push(0);
            }
            proof {
                let base = y * 128 + x * 4;
                assert forall|i: int| base <= i < base + 4 implies pixel_x(i) == x && pixel_y(i)
                    == y && i % 4 == i - base by {
                    assert(i / 4 == y * 32 + x);
                    assert((y * 32 + x) % 32 == x);
                    assert((y * 32 + x) / 32 == y);
                }
            }
            x = x + 1;
        }
        y = y + 1;
    }
    buf
}

/// The icon shown while stopped: a cornflower-blue disc.
pub fn stopped_icon_rgba() -> (buf: Vec<u8>)
    ensures
        is_disc_bitmap(buf@, 100, 149, 237),
{
    icon_rgba(100, 149, 237)
}

/// The icon shown while playing: a green disc.
pub fn playing_icon_rgba() -> (buf: Vec<u8>)
    ensures
        is_disc_bitmap(buf@, 76, 175, 80),
{
    icon_rgba(76, 175, 80)
}

} // verus!
