//! The transform unit: projection, viewport and matrices.
//!
//! The unit's registers hold IEEE-754 single-precision numbers. The encoder
//! moves them as the 32 bits they are: a caller hands over each number's bit
//! pattern, and that pattern is what goes on the wire.

use vstd::prelude::*;
use crate::gx::wp::xf_command;
use crate::gx::{Gx, GxView};
use crate::wire::{be32, be32_words, lemma_be32_words_layout};

verus! {

/// The first register of the matrix memory.
pub const XF_MATRIX: u16 = 0x0000;

/// The register that holds the number of colour channels.
pub const XF_NUM_CHAN: u16 = 0x1009;

/// The first of the six viewport registers.
pub const XF_VIEWPORT: u16 = 0x101a;

/// The first of the seven projection registers.
pub const XF_PROJECTION: u16 = 0x1020;

/// A projection: six coefficients, each the bit pattern of a
/// single-precision number, and whether they are read as a perspective or as
/// an orthographic projection.
#[derive(Clone, Copy, Debug, PartialEq, Eq, Structural)]
pub enum Projection {
    Perspective(u32, u32, u32, u32, u32, u32),
    Orthographic(u32, u32, u32, u32, u32, u32),
}

/// The words of a projection: the six coefficients, then 0 for a perspective
/// and 1 for an orthographic projection.
pub open spec fn projection_words(projection: Projection) -> Seq<u32> {
    match projection {
        Projection::Perspective(a, b, c, d, e, f) => seq![a, b, c, d, e, f, 0u32],
        Projection::Orthographic(a, b, c, d, e, f) => seq![a, b, c, d, e, f, 1u32],
    }
}

/// A perspective and an orthographic projection with the same coefficients
/// differ in nothing but their last word, 0 for the one and 1 for the other:
/// as words, and as the commands that carry them.
pub proof fn lemma_projection_kinds(a: u32, b: u32, c: u32, d: u32, e: u32, f: u32)
    ensures
        ({
            let p = projection_words(Projection::Perspective(a, b, c, d, e, f));
            let o = projection_words(Projection::Orthographic(a, b, c, d, e, f));
            let on_wire_p = xf_command(XF_PROJECTION, p);
            let on_wire_o = xf_command(XF_PROJECTION, o);
            &&& p.len() == 7
            &&& o.len() == 7
            &&& p.take(6) == seq![a, b, c, d, e, f]
            &&& o.take(6) == seq![a, b, c, d, e, f]
            &&& p[6] == 0
            &&& o[6] == 1
            &&& on_wire_p.len() == 33
            &&& on_wire_o.len() == 33
            &&& on_wire_p.take(29) == on_wire_o.take(29)
            &&& on_wire_p.skip(29) == be32(0)
            &&& on_wire_o.skip(29) == be32(1)
        }),
{
    let p = projection_words(Projection::Perspective(a, b, c, d, e, f));
    let o = projection_words(Projection::Orthographic(a, b, c, d, e, f));
    let on_wire_p = xf_command(XF_PROJECTION, p);
    let on_wire_o = xf_command(XF_PROJECTION, o);
    assert(p.take(6) =~= seq![a, b, c, d, e, f]);
    assert(o.take(6) =~= seq![a, b, c, d, e, f]);
    lemma_be32_words_layout(p, 6);
    lemma_be32_words_layout(o, 6);
    assert(on_wire_p.skip(29) =~= be32_words(p).subrange(24, 28));
    assert(on_wire_o.skip(29) =~= be32_words(o).subrange(24, 28));
    assert forall|i: int| 0 <= i < 29 implies on_wire_p[i] == on_wire_o[i] by {
        if i >= 5 {
            let k = i - 5;
            assert(on_wire_p[i] == be32_words(p)[k]);
            assert(on_wire_o[i] == be32_words(o)[k]);
            assert(k / 4 < 6);
            assert(p[k / 4] == o[k / 4]);
        }
    }
    assert(on_wire_p.take(29) =~= on_wire_o.take(29));
}

/// A viewport: three scales and three offsets, each the bit pattern of a
/// single-precision number.
///
/// For a viewport at `(x, y)` of `width` by `height` and depths from `near`
/// to `far`, the scales are `width / 2`, `-height / 2` and
/// `(far - near) * 16777215`, the offsets `x + width / 2 + 342`,
/// `y + height / 2 + 342` and `far * 16777215`.
#[derive(Clone, Copy, Debug, PartialEq, Eq, Structural)]
pub struct Viewport {
    pub scale_x: u32,
    pub scale_y: u32,
    pub scale_z: u32,
    pub offset_x: u32,
    pub offset_y: u32,
    pub offset_z: u32,
}

/// The words of a viewport: the scales, then the offsets.
pub open spec fn viewport_words(viewport: Viewport) -> Seq<u32> {
    seq![
        viewport.scale_x,
        viewport.scale_y,
        viewport.scale_z,
        viewport.offset_x,
        viewport.offset_y,
        viewport.offset_z,
    ]
}

/// A session of transform-unit commands.
pub struct Xf<'a>(pub &'a mut Gx);

impl<'a> View for Xf<'a> {
    type V = GxView;

    /// The context as the session has left it so far.
    open spec fn view(&self) -> GxView {
        self.0@
    }
}

impl<'a> Xf<'a> {
    /// Opens a session.
    pub fn new(gx: &'a mut Gx) -> (xf: Xf<'a>)
        ensures
            xf@ == old(gx)@,
            final(xf.0)@ == final(gx)@,
    {
        Xf(gx)
    }

    fn write(&mut self, register: u16, values: &[u32])
        requires
            1 <= values@.len() <= 0x1_0000,
        ensures
            final(self)@ == old(self)@.emit(xf_command(register, values@)),
            final(final(self).0)@ == final(old(self).0)@,
    {
        self.0.wp.write_xf(register, values);
    }

    /// Sets the viewport.
    pub fn set_viewport(&mut self, viewport: &Viewport)
        ensures
            final(self)@ == old(self)@.emit(xf_command(XF_VIEWPORT, viewport_words(*viewport))),
            final(final(self).0)@ == final(old(self).0)@,
    {
        let words: [u32; 6] = [
            viewport.scale_x,
            viewport.scale_y,
            viewport.scale_z,
            viewport.offset_x,
            viewport.offset_y,
            viewport.offset_z,
        ];
        proof {
            assert(words@ =~= viewport_words(*viewport));
        }
        self.write(XF_VIEWPORT, &words);
    }

    /// Sets the projection.
    pub fn set_projection(&mut self, projection: Projection)
        ensures
            final(self)@ == old(self)@.emit(
                xf_command(XF_PROJECTION, projection_words(projection)),
            ),
            final(final(self).0)@ == final(old(self).0)@,
    {
        let words: [u32; 7] = match projection {
            Projection::Perspective(a, b, c, d, e, f) => [a, b, c, d, e, f, 0],
            Projection::Orthographic(a, b, c, d, e, f) => [a, b, c, d, e, f, 1],
        };
        proof {
            assert(words@ =~= projection_words(projection));
        }
        self.write(XF_PROJECTION, &words);
    }

    /// Sets the number of texture coordinate generators.
    pub fn set_num_texgens(&mut self, num: u32)
        ensures
            final(self)@ == old(self)@.emit(xf_command(XF_NUM_CHAN, seq![num])),
            final(final(self).0)@ == final(old(self).0)@,
    {
        let words: [u32; 1] = [num];
        proof {
            assert(words@ =~= seq![num]);
        }
        self.write(XF_NUM_CHAN, &words);
    }

    /// Sets the number of colour channels.
    pub fn set_num_chan(&mut self, num: u32)
        ensures
            final(self)@ == old(self)@.emit(xf_command(XF_NUM_CHAN, seq![num])),
            final(final(self).0)@ == final(old(self).0)@,
    {
        let words: [u32; 1] = [num];
        proof {
            assert(words@ =~= seq![num]);
        }
        self.write(XF_NUM_CHAN, &words);
    }

    /// Loads the twelve coefficients of a matrix, each the bit pattern of a
    /// single-precision number, into the start of the matrix memory.
    pub fn set_0000_matrix(&mut self, mat: &[u32; 12])
        ensures
            final(self)@ == old(self)@.emit(xf_command(XF_MATRIX, mat@)),
            final(final(self).0)@ == final(old(self).0)@,
    {
        self.write(XF_MATRIX, mat);
    }
}

} // verus!
