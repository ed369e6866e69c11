//! The copy that shows what was painted.

use vstd::prelude::*;
use crate::bus::WP_LINE;
use crate::gx::bp::{
    bp_load, clear_color_commands, efb_coord_payload, efb_size_payload, filter_commands,
    output_commands, vertical_filter_commands, xfb_stride_ok, Bp, CopyFlag, Xfb, COPY_CLEAR,
    COPY_TO_XFB,
};
use crate::wire::zeros;

verus! {

/// The coefficient that the horizontal filter gets in all four places for a
/// plain copy.
pub const COPY_FILTER: u32 = 0x66_6666;

/// The coefficients of the vertical filter for a plain copy.
pub open spec fn copy_vertical_filter() -> Seq<u8> {
    seq![0x00u8, 0x00u8, 0x15u8, 0x16u8, 0x15u8, 0x00u8, 0x00u8]
}

/// The commands of a whole copy of the top left `width` by `height` pixels
/// of the frame buffer to `xfb`: the source rectangle, the destination, a
/// clear colour of red without alpha and a clear depth of zero, the filters of
/// a plain copy, the copy itself with both flags, and the line of zero bytes
/// that pushes all of it out.
pub open spec fn copy_commands(xfb: Xfb, width: u32, height: u32) -> Seq<u8> {
    bp_load(0x49, efb_coord_payload(0, 0)) + bp_load(0x4a, efb_size_payload(width, height))
        + output_commands(xfb) + clear_color_commands(255, 0, 0, 0) + bp_load(0x51, 0)
        + filter_commands(seq![COPY_FILTER, COPY_FILTER, COPY_FILTER, COPY_FILTER])
        + vertical_filter_commands(copy_vertical_filter()) + bp_load(
        0x52,
        COPY_CLEAR | COPY_TO_XFB,
    ) + zeros(WP_LINE as nat)
}

/// Copies the top left `width` by `height` pixels of the frame buffer to
/// `xfb`, clearing the frame buffer behind the copy.
pub fn copy_efb_to_xfb(bp: &mut Bp, xfb: &Xfb, width: u32, height: u32)
    requires
        0 < width < 1024,
        0 < height < 1024,
        xfb_stride_ok(xfb.stride),
    ensures
        final(bp)@ == old(bp)@.emit(copy_commands(*xfb, width, height)),
        final(final(bp).0)@ == final(old(bp).0)@,
{
    bp.set_efb_coord(0, 0);
    bp.set_efb_size(width, height);
    bp.set_output(xfb);
    bp.set_copy_clear_color(255, 0, 0, 0);
    bp.set_copy_clear_depth(0);
    let filters: [u32; 4] = [COPY_FILTER, COPY_FILTER, COPY_FILTER, COPY_FILTER];
    bp.set_filter(filters);
    let taps: [u8; 7] = [0x00, 0x00, 0x15, 0x16, 0x15, 0x00, 0x00];
    proof {
        assert(taps@ =~= copy_vertical_filter());
        assert(filters@ =~= seq![COPY_FILTER, COPY_FILTER, COPY_FILTER, COPY_FILTER]);
    }
    bp.set_vertical_filter(taps);
    bp.do_copy(CopyFlag::clear() | CopyFlag::to_xfb());
    bp.flush();
    proof {
        assert(bp@.pipe =~= old(bp)@.pipe + copy_commands(*xfb, width, height));
    }
}

} // verus!
