use luma_gx::gx::cp::Cp;
use luma_gx::gx::xf::{Projection, Viewport, Xf};
use luma_gx::gx::Gx;

fn context() -> Gx {
    Gx::setup(0, 0x8034_5000).0
}

#[test]
fn vertex_descriptor_is_fixed() {
    let expected = vec![0x08, 0x50, 0x00, 0x00, 0x22, 0x00, 0x08, 0x60, 0x00, 0x00, 0x00, 0x00];
    let mut gx = context();
    gx.cp().set_vcd_lo(0);
    assert_eq!(gx.drain(), expected);
    Cp::new(&mut gx).set_vcd_lo(0xffff_ffff);
    assert_eq!(gx.drain(), expected);
}

#[test]
fn projection_streams_six_coefficients_and_the_kind() {
    let mut gx = context();
    gx.xf().set_projection(Projection::Perspective(
        1.0f32.to_bits(),
        0,
        0x1122_3344,
        0xffff_ffff,
        (-1.0f32).to_bits(),
        2.5f32.to_bits(),
    ));
    assert_eq!(
        gx.drain(),
        vec![
            0x10, 0x00, 0x06, 0x10, 0x20, // seven words from 0x1020
            0x3f, 0x80, 0x00, 0x00, 0x00, 0x00, 0x00, 0x00, 0x11, 0x22, 0x33, 0x44, 0xff, 0xff,
            0xff, 0xff, 0xbf, 0x80, 0x00, 0x00, 0x40, 0x20, 0x00, 0x00, 0x00, 0x00, 0x00, 0x00,
        ]
    );
}

#[test]
fn projections_differ_in_the_last_word_only() {
    let coefficients = [
        (0u32, 0u32, 0u32, 0u32, 0u32, 0u32),
        (1, 2, 3, 4, 5, 6),
        (0x3f80_0000, 0xbf80_0000, 0x7fc0_0000, 0x8000_0000, 0xffff_ffff, 0x0000_0001),
    ];
    for (a, b, c, d, e, f) in coefficients {
        let mut gx = context();
        gx.xf().set_projection(Projection::Perspective(a, b, c, d, e, f));
        let perspective = gx.drain();
        Xf::new(&mut gx).set_projection(Projection::Orthographic(a, b, c, d, e, f));
        let orthographic = gx.drain();
        assert_eq!(perspective.len(), 33);
        assert_eq!(orthographic.len(), 33);
        assert_eq!(perspective[..29], orthographic[..29]);
        assert_eq!(perspective[29..], [0, 0, 0, 0]);
        assert_eq!(orthographic[29..], [0, 0, 0, 1]);
    }
}

#[test]
fn viewport_streams_scales_then_offsets() {
    let viewport = Viewport {
        scale_x: 320.0f32.to_bits(),
        scale_y: (-240.0f32).to_bits(),
        scale_z: 16777215.0f32.to_bits(),
        offset_x: 662.0f32.to_bits(),
        offset_y: 582.0f32.to_bits(),
        offset_z: 16777215.0f32.to_bits(),
    };
    let mut gx = context();
    gx.xf().set_viewport(&viewport);
    assert_eq!(
        gx.drain(),
        vec![
            0x10, 0x00, 0x05, 0x10, 0x1a, // six words from 0x101a
            0x43, 0xa0, 0x00, 0x00, 0xc3, 0x70, 0x00, 0x00, 0x4b, 0x7f, 0xff, 0xff, 0x44, 0x25,
            0x80, 0x00, 0x44, 0x11, 0x80, 0x00, 0x4b, 0x7f, 0xff, 0xff,
        ]
    );
}

#[test]
fn channel_and_texgen_counts_are_single_words() {
    let mut gx = context();
    gx.xf().set_num_chan(1);
    assert_eq!(gx.drain(), vec![0x10, 0x00, 0x00, 0x10, 0x09, 0, 0, 0, 1]);
    gx.xf().set_num_texgens(0x0102_0304);
    assert_eq!(gx.drain(), vec![0x10, 0x00, 0x00, 0x10, 0x09, 1, 2, 3, 4]);
}

#[test]
fn matrix_streams_twelve_words_bit_for_bit() {
    let mut mat = [0u32; 12];
    for (i, word) in mat.iter_mut().enumerate() {
        *word = (i as f32).to_bits();
    }
    mat[11] = 0x7fc0_0001;
    let mut gx = context();
    gx.xf().set_0000_matrix(&mat);
    let bytes = gx.drain();
    assert_eq!(bytes.len(), 5 + 48);
    assert_eq!(&bytes[..5], &[0x10, 0x00, 0x0b, 0x00, 0x00]);
    for (i, word) in mat.iter().enumerate() {
        assert_eq!(&bytes[5 + 4 * i..9 + 4 * i], &word.to_be_bytes());
    }
    assert_eq!(&bytes[5..13], &[0, 0, 0, 0, 0x3f, 0x80, 0x00, 0x00]);
    assert_eq!(&bytes[49..], &[0x7f, 0xc0, 0x00, 0x01]);
}

#[test]
fn sessions_append_in_the_order_of_the_calls() {
    let mut gx = context();
    gx.cp().set_vcd_lo(0);
    {
        let mut xf = gx.xf();
        xf.set_num_chan(1);
        xf.set_num_texgens(0);
    }
    gx.invalidate_vertex_cache();
    gx.send_vertices();
    gx.flush();
    let bytes = gx.drain();
    assert_eq!(bytes.len(), 12 + 9 + 9 + 1 + 9 + 32);
    assert_eq!(bytes[0], 0x08);
    assert_eq!(bytes[12], 0x10);
    assert_eq!(bytes[21], 0x10);
    assert_eq!(bytes[30], 0x48);
    assert_eq!(bytes[31], 0x90);
    assert_eq!(&bytes[40..], &[0u8; 32][..]);
}
