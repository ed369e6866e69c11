use std::collections::HashMap;

use luma_gx::bus::Store;
use luma_gx::draw::padding::fill_padding;
use luma_gx::draw::picture::paint_picture;
use luma_gx::draw::rings::paint_pixels;
use luma_gx::gx::Gx;

fn context() -> Gx {
    Gx::setup(0, 0x8034_5000).0
}

fn white(x: u32, y: u32) -> Store {
    Store::Word { addr: 0x0800_0000 + 4 * (y * 1024 + x), value: 0x00ff_ffff }
}

/// Whether `(x, y)` is within 20 pixels of an edge of the picture.
fn in_padding(x: u32, y: u32, width: u32, height: u32) -> bool {
    x < width && y < height && (y < 20 || y + 20 >= height || x < 20 || x + 20 >= width)
}

fn padding_of(width: usize, height: usize) -> Vec<Store> {
    let mut gx = context();
    fill_padding(gx.efb(), width, height)
}

#[test]
fn padding_of_nothing_is_nothing() {
    assert_eq!(padding_of(0, 0), vec![]);
    assert_eq!(padding_of(640, 0), vec![]);
    assert_eq!(padding_of(0, 30), vec![]);
}

#[test]
fn padding_of_a_low_picture_is_the_picture() {
    let stores = padding_of(3, 2);
    assert_eq!(
        stores,
        vec![white(0, 0), white(1, 0), white(2, 0), white(0, 1), white(1, 1), white(2, 1)]
    );
    let stores = padding_of(50, 40);
    assert_eq!(stores.len(), 50 * 40);
    assert_eq!(stores[0], white(0, 0));
    assert_eq!(stores[50], white(0, 1));
    assert_eq!(stores[50 * 40 - 1], white(49, 39));
}

#[test]
fn padding_has_sides_between_top_and_bottom() {
    let stores = padding_of(50, 41);
    assert_eq!(stores.len(), 50 * 40 + 40);
    // Row 20 is the one row with sides: left and right in turn.
    let row = &stores[50 * 20..50 * 20 + 40];
    for x in 0..20u32 {
        assert_eq!(row[2 * x as usize], white(x, 20));
        assert_eq!(row[2 * x as usize + 1], white(x + 30, 20));
    }
    assert_eq!(stores[50 * 20 + 40], white(0, 21));
}

#[test]
fn padding_of_a_narrow_picture_paints_both_sides() {
    let stores = padding_of(20, 42);
    let row = &stores[20 * 20..20 * 20 + 40];
    for x in 0..20u32 {
        assert_eq!(row[2 * x as usize], white(x, 20));
        assert_eq!(row[2 * x as usize + 1], white(x, 20));
    }
}

#[test]
fn padding_paints_the_padding_and_nothing_else() {
    for (width, height) in [(640u32, 480u32), (640, 528), (100, 100), (41, 41), (20, 60)] {
        let stores = padding_of(width as usize, height as usize);
        let mut painted = vec![false; (width * height) as usize];
        for store in &stores {
            let (addr, value) = match store {
                Store::Word { addr, value } => (*addr, *value),
                other => panic!("{:?} is no pixel store", other),
            };
            assert_eq!(value, 0x00ff_ffff);
            let index = (addr - 0x0800_0000) / 4;
            let (x, y) = (index % 1024, index / 1024);
            assert_eq!(addr, 0x0800_0000 + 4 * (y * 1024 + x));
            assert!(in_padding(x, y, width, height), "({}, {}) is not in the padding", x, y);
            painted[(y * width + x) as usize] = true;
        }
        for y in 0..height {
            for x in 0..width {
                assert_eq!(painted[(y * width + x) as usize], in_padding(x, y, width, height));
            }
        }
    }
}

#[test]
fn padding_of_the_whole_screen_has_its_size() {
    let stores = padding_of(640, 480);
    assert_eq!(stores.len(), 2 * 20 * 640 + 440 * 40);
    assert_eq!(stores[0], white(0, 0));
    assert_eq!(stores[stores.len() - 1], white(639, 479));
}

/// The pixel of the rings at `(x, y)`, worked out in 64 bits.
fn ring(x: i64, y: i64, padding: i64, width: i64, height: i64, time: i64) -> u32 {
    let halfh = padding + (height - padding * 2) / 2;
    let halfw = padding + (width - padding * 2) / 2;
    let outer = halfw.min(halfh) - 8;
    let inner = outer - 32;
    let r2 = (x - halfw) * (x - halfw) + (y - halfh) * (y - halfh);
    let k = if r2 < inner * inner {
        r2 / 32 + time / 4
    } else if r2 < outer * outer {
        y + time / 2
    } else {
        x + time
    };
    (k * 0x0008_0401).rem_euclid(1 << 32) as u32
}

fn rings_of(padding: i32, width: i32, height: i32, time: i32) -> Vec<Store> {
    let mut gx = context();
    paint_pixels(gx.efb(), padding, width, height, time)
}

fn pixel_of(stores: &[Store], padding: i32, width: i32, x: i32, y: i32) -> u32 {
    let at = ((y - padding) * (width - 2 * padding) + (x - padding)) as usize;
    match stores[at] {
        Store::Word { addr, value } => {
            assert_eq!(addr, 0x0800_0000 + 4 * (y as u32 * 1024 + x as u32));
            value
        }
        other => panic!("{:?} is no pixel store", other),
    }
}

#[test]
fn rings_of_nothing_are_nothing() {
    assert_eq!(rings_of(0, 0, 0, 0), vec![]);
    assert_eq!(rings_of(20, 40, 480, 1), vec![]);
    assert_eq!(rings_of(20, 640, 40, 1), vec![]);
    assert_eq!(rings_of(20, 39, 39, 1), vec![]);
    assert_eq!(rings_of(-5, -20, 480, 1), vec![]);
    assert_eq!(rings_of(i32::MAX, i32::MIN, i32::MIN, 0), vec![]);
    assert_eq!(rings_of(i32::MAX, i32::MAX, i32::MAX, 0), vec![]);
}

#[test]
fn rings_paint_each_pixel_inside_the_padding_once() {
    let stores = rings_of(20, 640, 480, 0);
    assert_eq!(stores.len(), 600 * 440);
    assert_eq!(
        stores[0],
        Store::Word { addr: 0x0800_0000 + 4 * (20 * 1024 + 20), value: 0x00a0_5014 }
    );
    let stores = rings_of(1, 6, 5, 3);
    assert_eq!(stores.len(), 12);
    for (i, store) in stores.iter().enumerate() {
        let (x, y) = (1 + i as u32 % 4, 1 + i as u32 / 4);
        assert_eq!(*store, Store::Word { addr: 0x0800_0000 + 4 * (y * 1024 + x), value: 0 });
    }
}

#[test]
fn rings_go_by_distance_row_and_column() {
    let stores = rings_of(20, 640, 480, 0);
    // The centre: the distance is 0.
    assert_eq!(pixel_of(&stores, 20, 640, 320, 240), 0);
    // Between the circles: the row, 30.
    assert_eq!(pixel_of(&stores, 20, 640, 320, 30), 0x00f0_781e);
    // Outside: the column, 20.
    assert_eq!(pixel_of(&stores, 20, 640, 20, 20), 0x00a0_5014);

    let stores = rings_of(10, 100, 100, 8);
    assert_eq!(pixel_of(&stores, 10, 100, 50, 50), 0x0010_0802);
    assert_eq!(pixel_of(&stores, 10, 100, 50, 20), 0x00c0_6018);
    assert_eq!(pixel_of(&stores, 10, 100, 10, 10), 0x0090_4812);
    assert_eq!(pixel_of(&stores, 10, 100, 89, 89), 0x0309_8461);
}

#[test]
fn rings_move_with_time() {
    assert_eq!(pixel_of(&rings_of(20, 640, 480, 100), 20, 640, 330, 250), 0x00f8_7c1f);
    assert_eq!(pixel_of(&rings_of(20, 640, 480, 12345), 20, 640, 619, 459), 0x95ea_c2a4);
}

#[test]
fn rings_round_time_towards_zero() {
    assert_eq!(pixel_of(&rings_of(20, 640, 480, -1), 20, 640, 321, 241), 0);
    assert_eq!(pixel_of(&rings_of(20, 640, 480, -7), 20, 640, 320, 30), 0x00d8_6c1b);
    assert_eq!(pixel_of(&rings_of(10, 100, 100, -8), 10, 100, 55, 45), 0xfff7_fbff);
}

#[test]
fn rings_wrap_at_thirty_two_bits() {
    assert_eq!(pixel_of(&rings_of(20, 640, 480, i32::MAX), 20, 640, 20, 20), 0x8098_4c13);
    assert_eq!(pixel_of(&rings_of(20, 640, 480, i32::MIN), 20, 640, 20, 20), 0x80a0_5014);
}

#[test]
fn rings_follow_the_formula_everywhere() {
    let cases = [
        (20, 640, 480, 7),
        (0, 3, 2, -9),
        (10, 100, 100, 8),
        (5, 81, 64, 1_000_000),
        (0, 640, 528, -123_456),
        (3, 40, 90, i32::MAX),
    ];
    for (padding, width, height, time) in cases {
        let stores = rings_of(padding, width, height, time);
        let mut expected = Vec::new();
        for y in padding..height - padding {
            for x in padding..width - padding {
                expected.push(Store::Word {
                    addr: 0x0800_0000 + 4 * (y as u32 * 1024 + x as u32),
                    value: ring(
                        x as i64,
                        y as i64,
                        padding as i64,
                        width as i64,
                        height as i64,
                        time as i64,
                    ),
                });
            }
        }
        assert_eq!(stores, expected);
    }
}

#[test]
fn picture_packs_red_green_blue() {
    let mut gx = context();
    let rgb = [0x12, 0x34, 0x56, 0xff, 0x00, 0x80];
    assert_eq!(
        paint_picture(gx.efb(), &rgb, 2, 1),
        vec![
            Store::Word { addr: 0x0800_0000, value: 0x0012_3456 },
            Store::Word { addr: 0x0800_0004, value: 0x00ff_0080 },
        ]
    );
}

#[test]
fn picture_goes_row_by_row() {
    let mut gx = context();
    let rgb: Vec<u8> = (0..3 * 3 * 2).map(|i| i as u8).collect();
    let stores = paint_picture(gx.efb(), &rgb, 3, 2);
    let mut expected = Vec::new();
    for y in 0..2u32 {
        for x in 0..3u32 {
            let at = 3 * (y * 3 + x);
            expected.push(Store::Word {
                addr: 0x0800_0000 + 4 * (y * 1024 + x),
                value: (at << 16) | ((at + 1) << 8) | (at + 2),
            });
        }
    }
    assert_eq!(stores, expected);
    assert_eq!(stores[3], Store::Word { addr: 0x0800_1000, value: 0x0009_0a0b });
}

#[test]
fn picture_of_nothing_is_nothing() {
    let mut gx = context();
    assert_eq!(paint_picture(gx.efb(), &[], 0, 0), vec![]);
    assert_eq!(paint_picture(gx.efb(), &[1, 2, 3], 0, 5), vec![]);
    assert_eq!(paint_picture(gx.efb(), &[1, 2, 3], 1000, 0), vec![]);
}

#[test]
fn picture_leaves_further_bytes_alone() {
    let mut gx = context();
    let stores = paint_picture(gx.efb(), &[1, 2, 3, 4, 5, 6, 7], 1, 2);
    assert_eq!(
        stores,
        vec![
            Store::Word { addr: 0x0800_0000, value: 0x0001_0203 },
            Store::Word { addr: 0x0800_1000, value: 0x0004_0506 },
        ]
    );
}

#[test]
fn picture_fills_the_whole_screen() {
    let mut gx = context();
    let rgb = vec![0xabu8; 640 * 528 * 3];
    let stores = paint_picture(gx.efb(), &rgb, 640, 528);
    assert_eq!(stores.len(), 640 * 528);
    assert_eq!(stores[0], Store::Word { addr: 0x0800_0000, value: 0x00ab_abab });
    assert_eq!(stores[640 * 528 - 1], Store::Word { addr: 0x0820_f9fc, value: 0x00ab_abab });
}

#[test]
fn painting_leaves_padding_and_rings_side_by_side() {
    let (width, height, time) = (100u32, 90u32, 33i32);
    let mut gx = context();
    let mut pixels: HashMap<u32, u32> = HashMap::new();
    // What was there before shows where nothing is painted.
    for y in 0..528u32 {
        for x in 0..640u32 {
            pixels.insert(0x0800_0000 + 4 * (y * 1024 + x), 0x1234_5678);
        }
    }
    let mut stores = fill_padding(gx.efb(), width as usize, height as usize);
    stores.extend(paint_pixels(gx.efb(), 20, width as i32, height as i32, time));
    for store in &stores {
        match *store {
            Store::Word { addr, value } => assert!(pixels.insert(addr, value).is_some()),
            other => panic!("{:?} is no pixel store", other),
        }
    }
    for y in 0..528u32 {
        for x in 0..640u32 {
            let expected = if x >= width || y >= height {
                0x1234_5678
            } else if in_padding(x, y, width, height) {
                0x00ff_ffff
            } else {
                ring(x as i64, y as i64, 20, width as i64, height as i64, time as i64)
            };
            assert_eq!(pixels[&(0x0800_0000 + 4 * (y * 1024 + x))], expected, "at ({x}, {y})");
        }
    }
}
