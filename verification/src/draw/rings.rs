//! Rings that move with time.

use vstd::prelude::*;
use crate::bus::{Machine, Store};
use crate::draw::{lemma_rect_leaves, rect, rect_row, rect_rows};
use crate::gx::efb::{drawable, pixel_addr, Efb, EFB_HEIGHT, EFB_WIDTH};

verus! {

/// The quotient of `a` by `b`, rounded towards zero.
pub open spec fn quot(a: int, b: int) -> int {
    if a >= 0 {
        a / b
    } else {
        -((-a) / b)
    }
}

/// The factor that spreads a number over the three colours of a pixel.
pub const SPREAD: i64 = 0x0008_0401;

/// Whether the rings of a picture of `width` by `height` pixels with a
/// padding of `padding` pixels can be painted: where there is anything
/// inside the padding, it lies in the drawable part of the frame buffer.
pub open spec fn rings_fit(padding: int, width: int, height: int) -> bool {
    width - 2 * padding > 0 && height - 2 * padding > 0 ==> 0 <= padding && width - padding
        <= EFB_WIDTH && height - padding <= EFB_HEIGHT
}

/// The pixel of the rings at `(x, y)` at the time `time`.
///
/// The centre of the picture is the centre of two circles. Inside the inner
/// circle the pixel goes by the distance from the centre, between the
/// circles by the row, outside by the column; each moves with time at its
/// own speed. The number found is multiplied by `SPREAD`, and the low 32
/// bits of that are the pixel.
pub open spec fn ring_pixel(
    x: int,
    y: int,
    padding: int,
    width: int,
    height: int,
    time: int,
) -> u32 {
    let halfh = padding + (height - padding * 2) / 2;
    let halfw = padding + (width - padding * 2) / 2;
    let outer = (if halfw < halfh {
        halfw
    } else {
        halfh
    }) - 8;
    let inner = outer - 32;
    let r2 = (x - halfw) * (x - halfw) + (y - halfh) * (y - halfh);
    let k = if r2 < inner * inner {
        r2 / 32 + quot(time, 4)
    } else if r2 < outer * outer {
        y + quot(time, 2)
    } else {
        x + time
    };
    ((k * SPREAD) % 0x1_0000_0000) as u32
}

/// The pixels of the rings at the time `time`.
pub open spec fn ring_pixels(padding: int, width: int, height: int, time: int) -> spec_fn(
    int,
    int,
) -> u32 {
    |x: int, y: int| ring_pixel(x, y, padding, width, height, time)
}

/// The stores that paint the rings: every pixel inside the padding, row by
/// row from the top, each row left to right.
pub open spec fn rings(padding: int, width: int, height: int, time: int) -> Seq<Store> {
    rect(
        padding,
        padding,
        width - 2 * padding,
        height - 2 * padding,
        ring_pixels(padding, width, height, time),
    )
}

/// What painting the rings leaves in the frame buffer, whatever was there
/// before: the pixels inside the padding are the pixels of the rings, and
/// every other drawable pixel is as it was.
pub proof fn lemma_rings_leave(
    before: Machine,
    padding: int,
    width: int,
    height: int,
    time: int,
    x: int,
    y: int,
)
    requires
        rings_fit(padding, width, height),
        drawable(x, y),
    ensures
        (before.after_all(rings(padding, width, height, time)).word)(pixel_addr(x, y) as u32)
            == if padding <= x < width - padding && padding <= y < height - padding {
            ring_pixel(x, y, padding, width, height, time)
        } else {
            (before.word)(pixel_addr(x, y) as u32)
        },
{
    lemma_rect_leaves(
        before,
        padding,
        padding,
        width - 2 * padding,
        height - 2 * padding,
        ring_pixels(padding, width, height, time),
        x,
        y,
    );
}

/// The low 32 bits of `k` times `SPREAD`.
fn spread(k: i64) -> (pixel: u32)
    requires
        -0x1_0000_0000 <= k <= 0x1_0000_0000,
    ensures
        pixel == (k * SPREAD) % 0x1_0000_0000,
{
    let product: i64 = k * SPREAD;
    let pixel = product as u32;
    assert(pixel == product % 0x1_0000_0000) by (bit_vector)
        requires
            pixel == product as u32,
    ;
    pixel
}

/// Paints the rings inside the padding, as they are at the time `time`.
pub fn paint_pixels(efb: &mut Efb, padding: i32, width: i32, height: i32, time: i32) -> (stores:
    Vec<Store>)
    requires
        rings_fit(padding as int, width as int, height as int),
    ensures
        stores@ == rings(padding as int, width as int, height as int, time as int),
        final(efb)@ == old(efb)@,
{
    let mut stores: Vec<Store> = Vec::new();
    if width as i64 - 2 * (padding as i64) <= 0 || height as i64 - 2 * (padding as i64) <= 0 {
        return stores;
    }
    let halfh = padding + (height - padding * 2) / 2;
    let halfw = padding + (width - padding * 2) / 2;

    // Squared radii thresholds
    let mut or = (if halfw < halfh {
        halfw
    } else {
        halfh
    }) - 8;
    let mut ir = or - 32;
    assert(0 <= or * or <= 1000 * 1000 && 0 <= ir * ir <= 1000 * 1000) by (nonlinear_arith)
        requires
            -8 <= or <= 640,
            -40 <= ir <= 640,
    ;
    or *= or;
    ir *= ir;

    let ghost pixels = ring_pixels(padding as int, width as int, height as int, time as int);
    let mut y = padding;
    while y < height - padding
        invariant
            efb@ == old(efb)@,
            0 <= padding <= y <= height - padding <= EFB_HEIGHT,
            padding < width - padding <= EFB_WIDTH,
            halfh == padding + (height - padding * 2) / 2,
            halfw == padding + (width - padding * 2) / 2,
            ({
                let outer = (if halfw < halfh {
                    halfw
                } else {
                    halfh
                }) - 8;
                or == outer * outer && ir == (outer - 32) * (outer - 32)
            }),
            pixels == ring_pixels(padding as int, width as int, height as int, time as int),
            stores@ == rect_rows(
                y - padding,
                padding as int,
                padding as int,
                width - 2 * padding,
                pixels,
            ),
        decreases height - padding - y,
    {
        let ghost done = stores@;
        let ghost row = rect_row(padding as int, width - 2 * padding, y as int, pixels);
        assert(0 <= (y - halfh) * (y - halfh) <= 1000 * 1000) by (nonlinear_arith)
            requires
                -1000 <= y - halfh <= 1000,
        ;
        let y2 = (y - halfh) * (y - halfh);

        let mut x = padding;
        while x < width - padding
            invariant
                efb@ == old(efb)@,
                0 <= padding <= x <= width - padding <= EFB_WIDTH,
                padding <= y < height - padding <= EFB_HEIGHT,
                halfh == padding + (height - padding * 2) / 2,
                halfw == padding + (width - padding * 2) / 2,
                ({
                    let outer = (if halfw < halfh {
                        halfw
                    } else {
                        halfh
                    }) - 8;
                    or == outer * outer && ir == (outer - 32) * (outer - 32)
                }),
                y2 == (y - halfh) * (y - halfh),
                0 <= y2 <= 1000 * 1000,
                pixels == ring_pixels(padding as int, width as int, height as int, time as int),
                row == rect_row(padding as int, width - 2 * padding, y as int, pixels),
                stores@ == done + row.take(x - padding),
            decreases width - padding - x,
        {
            assert(0 <= (x - halfw) * (x - halfw) <= 1000 * 1000) by (nonlinear_arith)
                requires
                    -1000 <= x - halfw <= 1000,
            ;
            // squared distance from center
            let r2 = (x - halfw) * (x - halfw) + y2;

            let k: i64 = if r2 < ir {
                (r2 / 32 + time / 4) as i64
            } else if r2 < or {
                (y + time / 2) as i64
            } else {
                x as i64 + time as i64
            };
            let v = spread(k);

            stores.push(efb.poke(x as usize, y as usize, v));
            proof {
                let at = x - padding;
                assert(v == ring_pixel(
                    x as int,
                    y as int,
                    padding as int,
                    width as int,
                    height as int,
                    time as int,
                ));
                assert(row.take(at + 1) =~= row.take(at).push(row[at]));
                assert(stores@ =~= done + row.take(at + 1));
            }
            x += 1;
        }
        proof {
            assert(row.take(width - 2 * padding) =~= row);
        }
        y += 1;
    }
    stores
}

} // verus!
