use std::collections::HashMap;

use luma_gx::bus::{Load, Store};
use luma_gx::gx::{Fifo, Gx};

fn context() -> Gx {
    Gx::setup(0, 0x8034_5000).0
}

#[test]
fn setup_programs_pipe_then_ring_then_enables() {
    let (gx, programme) = Gx::setup(0x8000_0010, 0x8034_5000);
    assert_eq!(gx.fifo(), Fifo { start: 0x0034_5000, end: 0x0034_6000 });
    assert_eq!(
        programme,
        vec![
            Store::Spr { number: 921, value: 0x0c00_8000 },
            Store::Spr { number: 920, value: 0xc000_0010 },
            Store::Word { addr: 0xcc00_300c, value: 0x0034_5000 },
            Store::Word { addr: 0xcc00_3010, value: 0x0034_6000 },
            Store::Word { addr: 0xcc00_3014, value: 0x0034_5000 },
            Store::Half { addr: 0xcc00_0002, value: 0x0010 },
            Store::Half { addr: 0xcc00_0020, value: 0x5000 },
            Store::Half { addr: 0xcc00_0022, value: 0x0034 },
            Store::Half { addr: 0xcc00_0024, value: 0x6000 },
            Store::Half { addr: 0xcc00_0026, value: 0x0034 },
            Store::Half { addr: 0xcc00_0034, value: 0x5000 },
            Store::Half { addr: 0xcc00_0036, value: 0x0034 },
            Store::Half { addr: 0xcc00_0038, value: 0x5000 },
            Store::Half { addr: 0xcc00_003a, value: 0x0034 },
            Store::Half { addr: 0xcc00_0002, value: 0x0011 },
        ]
    );
}

#[test]
fn setup_leaves_the_pipe_empty() {
    let mut gx = context();
    assert_eq!(gx.drain(), Vec::<u8>::new());
}

#[test]
fn setup_splits_one_address_pair_into_halves() {
    for ring in [0u32, 0x0000_1000, 0x8034_5000, 0xc123_4560, 0x9fff_f000, 0xffff_efff] {
        let (gx, programme) = Gx::setup(0, ring);
        let start = ring & 0x1fff_ffff;
        let end = (ring + 4096) & 0x1fff_ffff;
        assert_eq!(gx.fifo(), Fifo { start, end });
        assert_eq!(programme.len(), 15);
        assert_eq!(programme[2], Store::Word { addr: 0xcc00_300c, value: start });
        assert_eq!(programme[3], Store::Word { addr: 0xcc00_3010, value: end });
        assert_eq!(programme[4], Store::Word { addr: 0xcc00_3014, value: start });
        let half = |i: usize| match programme[i] {
            Store::Half { value, .. } => value as u32,
            _ => panic!("store {} is no 16-bit store", i),
        };
        assert_eq!((half(7) << 16) | half(6), start);
        assert_eq!((half(9) << 16) | half(8), end);
        assert_eq!((half(11) << 16) | half(10), start);
        assert_eq!((half(13) << 16) | half(12), start);
    }
}

#[test]
fn setup_enables_reading_last_and_only_last() {
    let (_, programme) = Gx::setup(0xffff_ffff, 0x8000_0000);
    let enables: Vec<usize> = programme
        .iter()
        .enumerate()
        .filter(|(_, store)| {
            matches!(store, Store::Half { addr: 0xcc00_0002, value } if value & 1 != 0)
        })
        .map(|(i, _)| i)
        .collect();
    assert_eq!(enables, vec![14]);
}

#[test]
fn setup_leaves_one_ring_on_both_sides() {
    for ring in [0x8034_5000u32, 0x0000_0020, 0xdead_b000] {
        let (gx, programme) = Gx::setup(0x0000_1234, ring);
        let mut sprs = HashMap::new();
        let mut halves = HashMap::new();
        let mut words = HashMap::new();
        // What was there before does not matter.
        halves.insert(0xcc00_0002u32, 0xffffu16);
        words.insert(0xcc00_3014u32, 0xffff_ffffu32);
        for store in &programme {
            match *store {
                Store::Spr { number, value } => sprs.insert(number, value),
                Store::Half { addr, value } => halves.insert(addr, value).map(u32::from),
                Store::Word { addr, value } => words.insert(addr, value),
            };
        }
        let fifo = gx.fifo();
        let joined = |lo: u32, hi: u32| ((halves[&hi] as u32) << 16) | halves[&lo] as u32;
        assert_eq!(sprs[&921], 0x0c00_8000);
        assert_eq!(sprs[&920], 0x4000_1234);
        assert_eq!(words[&0xcc00_300c], fifo.start);
        assert_eq!(words[&0xcc00_3010], fifo.end);
        assert_eq!(words[&0xcc00_3014], fifo.start);
        assert_eq!(joined(0xcc00_0020, 0xcc00_0022), fifo.start);
        assert_eq!(joined(0xcc00_0024, 0xcc00_0026), fifo.end);
        assert_eq!(joined(0xcc00_0034, 0xcc00_0036), fifo.start);
        assert_eq!(joined(0xcc00_0038, 0xcc00_003a), fifo.start);
        assert_eq!(halves[&0xcc00_0002], 0x0011);
        assert_eq!(fifo.start & 0xe000_0000, 0);
        assert_eq!(fifo.end & 0xe000_0000, 0);
    }
}

#[test]
fn setup_keeps_the_other_bits_of_hid2() {
    let (_, programme) = Gx::setup(0x0000_0001, 0);
    assert_eq!(programme[1], Store::Spr { number: 920, value: 0x4000_0001 });
    let (_, programme) = Gx::setup(0xffff_ffff, 0);
    assert_eq!(programme[1], Store::Spr { number: 920, value: 0xffff_ffff });
}

#[test]
fn ring_across_the_end_of_physical_memory_wraps() {
    let (gx, _) = Gx::setup(0, 0x1fff_f000);
    assert_eq!(gx.fifo(), Fifo { start: 0x1fff_f000, end: 0 });
}

#[test]
fn flush_emits_thirty_two_zero_bytes() {
    let mut gx = context();
    gx.flush();
    assert_eq!(gx.drain(), vec![0u8; 32]);
}

#[test]
fn flush_emits_the_same_whatever_came_before() {
    let mut gx = context();
    gx.invalidate_vertex_cache();
    gx.send_vertices();
    let before = gx.drain().len();
    assert_eq!(before, 10);
    gx.wp().write8(0xaa);
    gx.flush();
    let bytes = gx.drain();
    assert_eq!(bytes.len(), 33);
    assert_eq!(bytes[0], 0xaa);
    assert_eq!(&bytes[1..], &[0u8; 32][..]);
    gx.flush();
    gx.flush();
    assert_eq!(gx.drain(), vec![0u8; 64]);
}

#[test]
fn pipe_writes_most_significant_byte_first() {
    let mut gx = context();
    gx.wp().write8(0x12);
    gx.wp().write16(0x3456);
    gx.wp().write32(0x789a_bcde);
    assert_eq!(gx.drain(), vec![0x12, 0x34, 0x56, 0x78, 0x9a, 0xbc, 0xde]);
}

#[test]
fn pipe_frames_a_transform_command() {
    let mut gx = context();
    gx.wp().write_xf(0x1234, &[0x0102_0304, 0xa0b0_c0d0, 0xffff_ffff]);
    assert_eq!(
        gx.drain(),
        vec![
            0x10, 0x00, 0x02, 0x12, 0x34, 0x01, 0x02, 0x03, 0x04, 0xa0, 0xb0, 0xc0, 0xd0, 0xff,
            0xff, 0xff, 0xff,
        ]
    );
}

#[test]
fn pipe_frames_a_transform_command_of_one_word() {
    let mut gx = context();
    gx.wp().write_xf(0xffff, &[0]);
    assert_eq!(gx.drain(), vec![0x10, 0x00, 0x00, 0xff, 0xff, 0, 0, 0, 0]);
}

#[test]
fn pipe_counts_the_words_of_a_long_transform_command() {
    let mut gx = context();
    let words = vec![0x0000_0001u32; 0x1_0000];
    gx.wp().write_xf(0, &words);
    let bytes = gx.drain();
    assert_eq!(bytes.len(), 5 + 4 * 0x1_0000);
    assert_eq!(&bytes[..5], &[0x10, 0xff, 0xff, 0x00, 0x00]);
    assert_eq!(&bytes[bytes.len() - 4..], &[0, 0, 0, 1]);

    let words = vec![0u32; 0x101];
    gx.wp().write_xf(0, &words);
    assert_eq!(&gx.drain()[..3], &[0x10, 0x01, 0x00]);
}

#[test]
fn drain_hands_over_once() {
    let mut gx = context();
    gx.wp().write8(1);
    gx.wp().write8(2);
    assert_eq!(gx.wp().drain(), vec![1, 2]);
    assert_eq!(gx.drain(), Vec::<u8>::new());
    gx.wp().write8(3);
    assert_eq!(gx.drain(), vec![3]);
}

#[test]
fn invalidate_vertex_cache_is_one_byte() {
    let mut gx = context();
    gx.invalidate_vertex_cache();
    assert_eq!(gx.drain(), vec![0x48]);
}

#[test]
fn send_vertices_draws_the_fixed_triangle() {
    let mut gx = context();
    gx.send_vertices();
    assert_eq!(gx.drain(), vec![0x90, 0x00, 0x03, 0, 0, 1, 1, 2, 2]);
}

#[test]
fn commands_leave_the_ring_alone() {
    let mut gx = context();
    let fifo = gx.fifo();
    gx.send_vertices();
    gx.flush();
    gx.efb().poke(1, 1, 0);
    gx.drain();
    assert_eq!(gx.fifo(), fifo);
}

#[test]
fn efb_addresses_pixels_row_by_row() {
    let mut gx = context();
    let efb = gx.efb();
    assert_eq!(efb.addr(0, 0), 0x0800_0000);
    assert_eq!(efb.addr(1, 0), 0x0800_0004);
    assert_eq!(efb.addr(0, 1), 0x0800_1000);
    assert_eq!(efb.addr(639, 527), 0x0820_f9fc);
    assert_eq!(efb.addr(320, 240), 0x0800_0000 + 4 * (240 * 1024 + 320));
}

#[test]
fn efb_peek_loads_from_the_pixel() {
    let mut gx = context();
    let efb = gx.efb();
    assert_eq!(efb.peek(0, 0), Load { addr: 0x0800_0000 });
    assert_eq!(efb.peek(5, 7), Load { addr: 0x0800_7014 });
    assert_eq!(efb.peek(639, 527), Load { addr: 0x0820_f9fc });
}

#[test]
fn efb_poke_stores_the_pixel() {
    let mut gx = context();
    let efb = gx.efb();
    assert_eq!(efb.poke(0, 0, 0x00ff_ffff), Store::Word { addr: 0x0800_0000, value: 0x00ff_ffff });
    assert_eq!(efb.poke(5, 7, 0x0012_3456), Store::Word { addr: 0x0800_7014, value: 0x0012_3456 });
    assert_eq!(efb.poke(639, 527, 0), Store::Word { addr: 0x0820_f9fc, value: 0 });
}

#[test]
fn efb_access_stays_off_the_command_stream() {
    let mut gx = context();
    gx.efb().poke(3, 4, 0xffff_ffff);
    gx.efb().peek(3, 4);
    assert_eq!(gx.drain(), Vec::<u8>::new());
}
