//! A picture from its bytes.

use vstd::prelude::*;
use crate::bus::{Machine, Store};
use crate::draw::{lemma_rect_leaves, rect, rect_row, rect_rows};
use crate::gx::efb::{drawable, pixel_addr, Efb, EFB_HEIGHT, EFB_WIDTH};

verus! {

/// The pixel with the given red, green and blue.
pub open spec fn xrgb(r: u8, g: u8, b: u8) -> u32 {
    ((r as u32) << 16) | ((g as u32) << 8) | (b as u32)
}

/// A pixel keeps its three colours apart, eight bits each, and leaves its
/// top byte empty.
pub proof fn lemma_xrgb_fields(r: u8, g: u8, b: u8)
    ensures
        (xrgb(r, g, b) >> 16) & 0xff == r,
        (xrgb(r, g, b) >> 8) & 0xff == g,
        xrgb(r, g, b) & 0xff == b,
        xrgb(r, g, b) >> 24 == 0,
{
    let p = ((r as u32) << 16) | ((g as u32) << 8) | (b as u32);
    assert((p >> 16) & 0xff == r && (p >> 8) & 0xff == g && p & 0xff == b && p >> 24 == 0)
        by (bit_vector)
        requires
            p == ((r as u32) << 16) | ((g as u32) << 8) | (b as u32),
    ;
}

/// Whether a picture of `width` by `height` pixels, three bytes each, can be
/// painted from `len` bytes: the bytes are all there, and the picture lies
/// in the drawable part of the frame buffer.
pub open spec fn picture_fits(len: int, width: int, height: int) -> bool {
    &&& height <= EFB_HEIGHT
    &&& height > 0 ==> width <= EFB_WIDTH
    &&& 3 * (width * height) <= len
}

/// The pixels of a picture of `width` pixels a row. The picture holds its
/// pixels row by row, and of each pixel the red, the green and the blue.
pub open spec fn picture_pixels(rgb: Seq<u8>, width: int) -> spec_fn(int, int) -> u32 {
    |x: int, y: int|
        xrgb(
            rgb[(y * width + x) * 3],
            rgb[(y * width + x) * 3 + 1],
            rgb[(y * width + x) * 3 + 2],
        )
}

/// The stores that paint a picture of `width` by `height` pixels into the
/// top left of the frame buffer, row by row from the top, each row left to
/// right.
pub open spec fn picture(rgb: Seq<u8>, width: int, height: int) -> Seq<Store> {
    rect(0, 0, width, height, picture_pixels(rgb, width))
}

/// What painting a picture leaves in the frame buffer, whatever was there
/// before: the top left holds the picture, pixel for pixel, and every other
/// drawable pixel is as it was.
pub proof fn lemma_picture_leaves(
    before: Machine,
    rgb: Seq<u8>,
    width: int,
    height: int,
    x: int,
    y: int,
)
    requires
        0 <= width,
        0 <= height,
        picture_fits(rgb.len() as int, width, height),
        drawable(x, y),
    ensures
        (before.after_all(picture(rgb, width, height)).word)(pixel_addr(x, y) as u32) == if x
            < width && y < height {
            xrgb(
                rgb[(y * width + x) * 3],
                rgb[(y * width + x) * 3 + 1],
                rgb[(y * width + x) * 3 + 2],
            )
        } else {
            (before.word)(pixel_addr(x, y) as u32)
        },
{
    lemma_rect_leaves(before, 0, 0, width, height, picture_pixels(rgb, width), x, y);
}

/// Paints a picture of `width` by `height` pixels into the top left of the
/// frame buffer.
pub fn paint_picture(efb: &mut Efb, rgb: &[u8], width: usize, height: usize) -> (stores: Vec<
    Store,
>)
    requires
        picture_fits(rgb@.len() as int, width as int, height as int),
    ensures
        stores@ == picture(rgb@, width as int, height as int),
        final(efb)@ == old(efb)@,
{
    let mut stores: Vec<Store> = Vec::new();
    let ghost pixels = picture_pixels(rgb@, width as int);
    let mut y: usize = 0;
    while y < height
        invariant
            efb@ == old(efb)@,
            y <= height <= EFB_HEIGHT,
            height > 0 ==> width <= EFB_WIDTH,
            3 * (width * height) <= rgb@.len(),
            pixels == picture_pixels(rgb@, width as int),
            stores@ == rect(0, 0, width as int, y as int, pixels),
        decreases height - y,
    {
        let ghost done = stores@;
        let ghost row = rect_row(0, width as int, y as int, pixels);
        let mut x: usize = 0;
        while x < width
            invariant
                efb@ == old(efb)@,
                x <= width <= EFB_WIDTH,
                y < height <= EFB_HEIGHT,
                3 * (width * height) <= rgb@.len(),
                pixels == picture_pixels(rgb@, width as int),
                row == rect_row(0, width as int, y as int, pixels),
                stores@ == done + row.take(x as int),
            decreases width - x,
        {
            assert(0 <= y * width <= 528 * 640 && y * width + x < width * height)
                by (nonlinear_arith)
                requires
                    x < width <= 640,
                    y < height <= 528,
            ;
            let at: usize = ((y * width) + x) * 3;
            let r = rgb[at] as u32;
            let g = rgb[at + 1] as u32;
            let b = rgb[at + 2] as u32;

            // The frame buffer holds its pixels in XRGB8888.
            let pixel = (r << 16) | (g << 8) | b;
            stores.push(efb.poke(x, y, pixel));
            proof {
                assert(row.take(x + 1) =~= row.take(x as int).push(row[x as int]));
                assert(stores@ =~= done + row.take(x + 1));
            }
            x += 1;
        }
        proof {
            assert(row.take(width as int) =~= row);
            if width > 0 {
                assert(done == rect_rows(y as int, 0, 0, width as int, pixels));
                assert(stores@ == rect_rows(y + 1, 0, 0, width as int, pixels));
            } else {
                assert(stores@ =~= done);
            }
        }
        y += 1;
    }
    stores
}

} // verus!
