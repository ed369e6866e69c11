//! The embedded frame buffer, pixel by pixel.

use vstd::prelude::*;
use crate::bus::{Load, Store};

verus! {

/// The first pixel of the frame buffer.
pub const EFB_BASE: u32 = 0x0800_0000;

/// The pixels from one row of the frame buffer to the next.
pub const EFB_STRIDE: usize = 1024;

/// The width of the drawable part of the frame buffer, in pixels.
pub const EFB_WIDTH: usize = 640;

/// The height of the drawable part of the frame buffer, in pixels.
pub const EFB_HEIGHT: usize = 528;

/// The bus address of the pixel at column `x` of row `y`: pixels are four
/// bytes wide and rows follow one another at `EFB_STRIDE` pixels.
pub open spec fn pixel_addr(x: int, y: int) -> int {
    EFB_BASE + 4 * (y * EFB_STRIDE + x)
}

/// The bytes that the rows of the frame buffer take up, `EFB_STRIDE` rows
/// of `EFB_STRIDE` pixels.
pub const EFB_BYTES: u32 = 0x0040_0000;

/// Whether `(x, y)` lies in the drawable part of the frame buffer.
pub open spec fn drawable(x: int, y: int) -> bool {
    0 <= x < EFB_WIDTH && 0 <= y < EFB_HEIGHT
}

/// Every drawable pixel has four bytes of the frame buffer to itself: its
/// address is a multiple of four inside the frame buffer, and two pixels
/// with one address are one pixel.
pub proof fn lemma_pixels_apart(x: int, y: int, other_x: int, other_y: int)
    requires
        drawable(x, y),
        drawable(other_x, other_y),
    ensures
        EFB_BASE <= pixel_addr(x, y) <= EFB_BASE + EFB_BYTES - 4,
        pixel_addr(x, y) % 4 == 0,
        pixel_addr(x, y) == pixel_addr(other_x, other_y) ==> x == other_x && y == other_y,
{
}

/// The frame buffer accessor.
///
/// Pixels are 32 bits wide, in XRGB8888. The accessor works out where a
/// pixel is; the platform layer carries the load or store out at once. This
/// path is apart from the command stream: nothing orders the two.
///
/// The accessor holds where its window begins. The hardware has the frame
/// buffer at one place, so every accessor begins at `EFB_BASE`.
pub struct Efb {
    base: u32,
}

impl View for Efb {
    type V = u32;

    /// The bus address at which the accessor's window begins.
    closed spec fn view(&self) -> u32 {
        self.base
    }
}

impl Efb {
    #[verifier::type_invariant]
    closed spec fn at_the_frame_buffer(self) -> bool {
        self.base == EFB_BASE
    }

    /// The accessor of the frame buffer. Its window begins where the
    /// hardware has the frame buffer; nothing has to be programmed for it.
    pub(super) fn new() -> (efb: Efb)
        ensures
            efb@ == EFB_BASE,
    {
        Efb { base: EFB_BASE }
    }

    /// The bus address of the pixel at `(x, y)`: four bytes a pixel and
    /// `EFB_STRIDE` pixels a row, counted from where the window begins.
    pub fn addr(&self, x: usize, y: usize) -> (addr: u32)
        requires
            x < EFB_WIDTH,
            y < EFB_HEIGHT,
        ensures
            self@ == EFB_BASE,
            addr == self@ + 4 * (y * EFB_STRIDE + x),
            addr == pixel_addr(x as int, y as int),
    {
        proof {
            use_type_invariant(self);
        }
        self.base + 4 * ((y * EFB_STRIDE + x) as u32)
    }

    /// The load that reads the pixel at `(x, y)`.
    pub fn peek(&self, x: usize, y: usize) -> (load: Load)
        requires
            x < EFB_WIDTH,
            y < EFB_HEIGHT,
        ensures
            load.addr == pixel_addr(x as int, y as int),
    {
        Load { addr: self.addr(x, y) }
    }

    /// The store that writes `pixel` to `(x, y)`. The accessor stays as it is.
    pub fn poke(&mut self, x: usize, y: usize, pixel: u32) -> (store: Store)
        requires
            x < EFB_WIDTH,
            y < EFB_HEIGHT,
        ensures
            store == (Store::Word { addr: pixel_addr(x as int, y as int) as u32, value: pixel }),
            final(self)@ == old(self)@,
    {
        Store::Word { addr: self.addr(x, y), value: pixel }
    }
}

} // verus!
