//! The white padding round a picture.

use vstd::prelude::*;
use crate::bus::{lemma_word_after, writes_word, Machine, Store};
use crate::draw::paint;
use crate::gx::efb::{drawable, lemma_pixels_apart, pixel_addr, Efb, EFB_HEIGHT, EFB_WIDTH};

verus! {

/// A white pixel.
pub const WHITE: u32 = 0x00ff_ffff;

/// The thickness of the white padding, in pixels.
pub const PADDING: usize = 20;

/// Whether the padding of a picture of `width` by `height` pixels can be
/// painted: the picture lies in the drawable part of the frame buffer, and
/// where the padding has sides, the picture is as wide as one side.
pub open spec fn padding_fits(width: int, height: int) -> bool {
    &&& height <= EFB_HEIGHT
    &&& height > 0 ==> width <= EFB_WIDTH
    &&& height > 2 * PADDING ==> width >= PADDING
}

/// Whether `(x, y)` lies in the padding of a picture of `width` by `height`
/// pixels: in the picture, and within `PADDING` pixels of one of its edges.
pub open spec fn in_padding(x: int, y: int, width: int, height: int) -> bool {
    &&& 0 <= x < width
    &&& 0 <= y < height
    &&& (y < PADDING || y >= height - PADDING || x < PADDING || x >= width - PADDING)
}

/// The stores that paint the padding's part of row `y`. In the top and the
/// bottom of the padding that is the whole row, left to right. Between them
/// it is the two sides, a pixel of the left side and a pixel of the right
/// side in turn.
pub open spec fn padding_row(width: int, height: int, y: int) -> Seq<Store> {
    if y < PADDING || y >= height - PADDING {
        Seq::new(width as nat, |x: int| paint(x, y, WHITE))
    } else {
        Seq::new(
            (2 * PADDING) as nat,
            |k: int| paint(if k % 2 == 0 { k / 2 } else { k / 2 + width - PADDING }, y, WHITE),
        )
    }
}

/// The stores that paint the padding's part of the first `count` rows, top
/// row first.
pub open spec fn padding_rows(count: int, width: int, height: int) -> Seq<Store>
    decreases count,
{
    if count <= 0 {
        Seq::empty()
    } else {
        padding_rows(count - 1, width, height) + padding_row(width, height, count - 1)
    }
}

/// The stores that paint the padding of a picture of `width` by `height` pixels.
pub open spec fn white_padding(width: int, height: int) -> Seq<Store> {
    padding_rows(height, width, height)
}

/// Row `y` of the padding paints white, and paints exactly the pixels of
/// the padding that lie in row `y`.
proof fn lemma_padding_row_covers(width: int, height: int, y: int)
    requires
        0 <= width,
        0 <= y < height,
        padding_fits(width, height),
    ensures
        forall|k: int|
            0 <= k < padding_row(width, height, y).len() ==> exists|x: int|
                in_padding(x, y, width, height) && #[trigger] padding_row(width, height, y)[k]
                    == paint(x, y, WHITE),
        forall|x: int|
            in_padding(x, y, width, height) ==> padding_row(width, height, y).contains(
                #[trigger] paint(x, y, WHITE),
            ),
{
    let row = padding_row(width, height, y);
    assert forall|k: int| 0 <= k < row.len() implies exists|x: int|
        in_padding(x, y, width, height) && #[trigger] row[k] == paint(x, y, WHITE) by {
        let x = if y < PADDING || y >= height - PADDING {
            k
        } else if k % 2 == 0 {
            k / 2
        } else {
            k / 2 + width - PADDING
        };
        assert(in_padding(x, y, width, height) && row[k] == paint(x, y, WHITE));
    }
    assert forall|x: int| in_padding(x, y, width, height) implies row.contains(
        #[trigger] paint(x, y, WHITE),
    ) by {
        let k = if y < PADDING || y >= height - PADDING {
            x
        } else if x < PADDING {
            2 * x
        } else {
            2 * (x - (width - PADDING)) + 1
        };
        assert(0 <= k < row.len() && row[k] == paint(x, y, WHITE));
    }
}

/// The first `count` rows of the padding paint white, and paint exactly the
/// pixels of the padding that lie in these rows.
proof fn lemma_padding_rows_cover(count: int, width: int, height: int)
    requires
        0 <= width,
        0 <= count <= height,
        padding_fits(width, height),
    ensures
        forall|i: int|
            0 <= i < padding_rows(count, width, height).len() ==> exists|x: int, y: int|
                y < count && in_padding(x, y, width, height) && #[trigger] padding_rows(
                    count,
                    width,
                    height,
                )[i] == paint(x, y, WHITE),
        forall|x: int, y: int|
            y < count && in_padding(x, y, width, height) ==> padding_rows(
                count,
                width,
                height,
            ).contains(#[trigger] paint(x, y, WHITE)),
    decreases count,
{
    if count > 0 {
        let above = padding_rows(count - 1, width, height);
        let row = padding_row(width, height, count - 1);
        let all = padding_rows(count, width, height);
        lemma_padding_rows_cover(count - 1, width, height);
        lemma_padding_row_covers(width, height, count - 1);
        assert forall|i: int| 0 <= i < all.len() implies exists|x: int, y: int|
            y < count && in_padding(x, y, width, height) && #[trigger] all[i] == paint(
                x,
                y,
                WHITE,
            ) by {
            if i < above.len() {
                assert(all[i] == above[i]);
                let (x, y) = choose|x: int, y: int|
                    y < count - 1 && in_padding(x, y, width, height) && above[i] == paint(
                        x,
                        y,
                        WHITE,
                    );
                assert(y < count && in_padding(x, y, width, height) && all[i] == paint(
                    x,
                    y,
                    WHITE,
                ));
            } else {
                let k = i - above.len();
                let last = count - 1;
                assert(all[i] == row[k]);
                let x = choose|x: int|
                    in_padding(x, last, width, height) && row[k] == paint(x, last, WHITE);
                assert(last < count && in_padding(x, last, width, height) && all[i] == paint(
                    x,
                    last,
                    WHITE,
                ));
            }
        }
        assert forall|x: int, y: int|
            y < count && in_padding(x, y, width, height) implies all.contains(
            #[trigger] paint(x, y, WHITE),
        ) by {
            if y < count - 1 {
                assert(above.contains(paint(x, y, WHITE)));
                let i = choose|i: int| 0 <= i < above.len() && above[i] == paint(x, y, WHITE);
                assert(all[i] == paint(x, y, WHITE));
            } else {
                assert(row.contains(paint(x, y, WHITE)));
                let k = choose|k: int| 0 <= k < row.len() && row[k] == paint(x, y, WHITE);
                assert(all[above.len() + k] == paint(x, y, WHITE));
            }
        }
    }
}

/// The padding is painted white and nothing else is painted: every store
/// paints a pixel of the padding white, and every pixel of the padding is
/// painted.
pub proof fn lemma_padding_is_painted(width: int, height: int)
    requires
        0 <= width,
        0 <= height,
        padding_fits(width, height),
    ensures
        forall|i: int|
            0 <= i < white_padding(width, height).len() ==> exists|x: int, y: int|
                in_padding(x, y, width, height) && #[trigger] white_padding(width, height)[i]
                    == paint(x, y, WHITE),
        forall|x: int, y: int|
            in_padding(x, y, width, height) ==> white_padding(width, height).contains(
                #[trigger] paint(x, y, WHITE),
            ),
{
    lemma_padding_rows_cover(height, width, height);
    let all = white_padding(width, height);
    assert forall|i: int| 0 <= i < all.len() implies exists|x: int, y: int|
        in_padding(x, y, width, height) && #[trigger] all[i] == paint(x, y, WHITE) by {
        let (x, y) = choose|x: int, y: int|
            y < height && in_padding(x, y, width, height) && all[i] == paint(x, y, WHITE);
        assert(in_padding(x, y, width, height) && all[i] == paint(x, y, WHITE));
    }
}

/// Fills the padding of a picture of `width` by `height` pixels with white.
pub fn fill_padding(efb: &mut Efb, width: usize, height: usize) -> (stores: Vec<Store>)
    requires
        padding_fits(width as int, height as int),
    ensures
        stores@ == white_padding(width as int, height as int),
        final(efb)@ == old(efb)@,
{
    let mut stores: Vec<Store> = Vec::new();
    let mut y: usize = 0;
    while y < height
        invariant
            efb@ == old(efb)@,
            y <= height,
            padding_fits(width as int, height as int),
            stores@ == padding_rows(y as int, width as int, height as int),
        decreases height - y,
    {
        let ghost done = stores@;
        let ghost row = padding_row(width as int, height as int, y as int);
        if y < PADDING || y >= height - PADDING {
            let mut x: usize = 0;
            while x < width
                invariant
                    efb@ == old(efb)@,
                    x <= width <= EFB_WIDTH,
                    y < height <= EFB_HEIGHT,
                    row == Seq::new(width as nat, |x: int| paint(x, y as int, WHITE)),
                    stores@ == done + row.take(x as int),
                decreases width - x,
            {
                stores.push(efb.poke(x, y, WHITE));
                proof {
                    assert(row.take(x + 1) =~= row.take(x as int).push(row[x as int]));
                    assert(stores@ =~= done + row.take(x + 1));
                }
                x += 1;
            }
            proof {
                assert(row.take(width as int) =~= row);
            }
        } else {
            let mut x: usize = 0;
            while x < PADDING
                invariant
                    efb@ == old(efb)@,
                    x <= PADDING <= width <= EFB_WIDTH,
                    y < height <= EFB_HEIGHT,
                    row == Seq::new(
                        (2 * PADDING) as nat,
                        |k: int|
                            paint(
                                if k % 2 == 0 {
                                    k / 2
                                } else {
                                    k / 2 + width - PADDING
                                },
                                y as int,
                                WHITE,
                            ),
                    ),
                    stores@ == done + row.take(2 * x),
                decreases PADDING - x,
            {
                stores.push(efb.poke(x, y, WHITE));
                stores.push(efb.poke(x + width - PADDING, y, WHITE));
                proof {
                    assert(row.take(2 * x + 2) =~= row.take(2 * x).push(row[2 * x]).push(
                        row[2 * x + 1],
                    ));
                    assert(stores@ =~= done + row.take(2 * x + 2));
                }
                x += 1;
            }
            proof {
                assert(row.take(2 * PADDING) =~= row);
            }
        }
        y += 1;
    }
    stores
}

/// What painting the padding leaves in the frame buffer, whatever was
/// there before: the pixels of the padding are white, and every other
/// drawable pixel is as it was.
pub proof fn lemma_padding_leaves(before: Machine, width: int, height: int, x: int, y: int)
    requires
        0 <= width,
        0 <= height,
        padding_fits(width, height),
        drawable(x, y),
    ensures
        (before.after_all(white_padding(width, height)).word)(pixel_addr(x, y) as u32)
            == if in_padding(x, y, width, height) {
            WHITE
        } else {
            (before.word)(pixel_addr(x, y) as u32)
        },
{
    let stores = white_padding(width, height);
    let addr = pixel_addr(x, y) as u32;
    lemma_padding_is_painted(width, height);
    assert forall|i: int|
        0 <= i < stores.len() && #[trigger] stores[i] is Word && stores[i]->Word_addr
            == addr implies stores[i]->Word_value == WHITE && in_padding(x, y, width, height) by {
        let (px, py) = choose|px: int, py: int|
            in_padding(px, py, width, height) && stores[i] == paint(px, py, WHITE);
        lemma_pixels_apart(px, py, x, y);
    }
    lemma_word_after(before, stores, addr, WHITE);
    if in_padding(x, y, width, height) {
        assert(stores.contains(paint(x, y, WHITE)));
        let i = choose|i: int| 0 <= i < stores.len() && stores[i] == paint(x, y, WHITE);
        assert(stores[i] is Word && stores[i]->Word_addr == addr);
        assert(writes_word(stores, addr));
    } else if writes_word(stores, addr) {
        let i = choose|i: int|
            0 <= i < stores.len() && #[trigger] stores[i] is Word && stores[i]->Word_addr == addr;
        assert(in_padding(x, y, width, height));
    }
}

} // verus!
