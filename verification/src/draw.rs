//! Pictures in the frame buffer and the copy that shows them: a picture
//! from its bytes, a white padding, rings that move with time, and the
//! display-pipeline commands that copy the frame buffer out.
//!
//! The painters work out the stores that paint, in the order in which the
//! platform layer is to carry them out.

use vstd::prelude::*;
use vstd::arithmetic::div_mod::lemma_fundamental_div_mod;
use crate::bus::{lemma_word_after, writes_word, Machine, Store};
use crate::gx::efb::{drawable, lemma_pixels_apart, pixel_addr};

pub mod copy;
pub mod padding;
pub mod picture;
pub mod rings;

verus! {

/// The store that paints the pixel at `(x, y)`.
pub open spec fn paint(x: int, y: int, pixel: u32) -> Store {
    Store::Word { addr: pixel_addr(x, y) as u32, value: pixel }
}

/// Whether `(x, y)` lies in the rectangle of `cols` by `rows` pixels whose
/// top left is `(x0, y0)`.
pub open spec fn in_rect(x: int, y: int, x0: int, y0: int, cols: int, rows: int) -> bool {
    x0 <= x < x0 + cols && y0 <= y < y0 + rows
}

/// The stores that paint `cols` pixels of row `y` from column `x0` on, left
/// to right, each pixel as `pixel` has it.
pub open spec fn rect_row(x0: int, cols: int, y: int, pixel: spec_fn(int, int) -> u32) -> Seq<
    Store,
> {
    Seq::new(cols as nat, |k: int| paint(x0 + k, y, pixel(x0 + k, y)))
}

/// The stores that paint the first `count` rows of a rectangle, top row
/// first.
pub open spec fn rect_rows(
    count: int,
    x0: int,
    y0: int,
    cols: int,
    pixel: spec_fn(int, int) -> u32,
) -> Seq<Store>
    decreases count,
{
    if count <= 0 {
        Seq::empty()
    } else {
        rect_rows(count - 1, x0, y0, cols, pixel) + rect_row(x0, cols, y0 + count - 1, pixel)
    }
}

/// The stores that paint the rectangle of `cols` by `rows` pixels whose top
/// left is `(x0, y0)`: row by row from the top, each row left to right, each
/// pixel as `pixel` has it.
pub open spec fn rect(
    x0: int,
    y0: int,
    cols: int,
    rows: int,
    pixel: spec_fn(int, int) -> u32,
) -> Seq<Store> {
    if cols <= 0 || rows <= 0 {
        Seq::empty()
    } else {
        rect_rows(rows, x0, y0, cols, pixel)
    }
}

/// The first `count` rows of a rectangle hold one store for each of their pixels.
proof fn lemma_rect_rows_len(
    count: int,
    x0: int,
    y0: int,
    cols: int,
    pixel: spec_fn(int, int) -> u32,
)
    requires
        0 <= count,
        0 < cols,
    ensures
        rect_rows(count, x0, y0, cols, pixel).len() == count * cols,
    decreases count,
{
    if count > 0 {
        lemma_rect_rows_len(count - 1, x0, y0, cols, pixel);
        assert((count - 1) * cols + cols == count * cols) by (nonlinear_arith);
    } else {
        assert(count * cols == 0) by (nonlinear_arith)
            requires
                count == 0,
        ;
    }
}

/// In the first `count` rows of a rectangle, the store for `(x, y)` stands
/// where counting the pixels row by row arrives at `(x, y)`.
proof fn lemma_rect_rows_layout(
    count: int,
    x0: int,
    y0: int,
    cols: int,
    pixel: spec_fn(int, int) -> u32,
    x: int,
    y: int,
)
    requires
        in_rect(x, y, x0, y0, cols, count),
    ensures
        rect_rows(count, x0, y0, cols, pixel).len() == count * cols,
        0 <= (y - y0) * cols + (x - x0) < count * cols,
        rect_rows(count, x0, y0, cols, pixel)[(y - y0) * cols + (x - x0)] == paint(
            x,
            y,
            pixel(x, y),
        ),
    decreases count,
{
    let row = rect_row(x0, cols, y0 + count - 1, pixel);
    lemma_rect_rows_len(count - 1, x0, y0, cols, pixel);
    lemma_rect_rows_len(count, x0, y0, cols, pixel);
    assert((count - 1) * cols + cols == count * cols) by (nonlinear_arith);
    if y < y0 + count - 1 {
        lemma_rect_rows_layout(count - 1, x0, y0, cols, pixel, x, y);
    } else {
        assert((y - y0) * cols == (count - 1) * cols);
        assert(0 <= (count - 1) * cols) by (nonlinear_arith)
            requires
                0 <= count - 1,
                0 < cols,
        ;
        assert(row[x - x0] == paint(x, y, pixel(x, y)));
    }
}

/// A rectangle holds one store for each of its pixels, and the store for
/// `(x, y)` stands where counting the pixels row by row arrives at `(x, y)`.
pub proof fn lemma_rect_layout(
    x0: int,
    y0: int,
    cols: int,
    rows: int,
    pixel: spec_fn(int, int) -> u32,
    x: int,
    y: int,
)
    requires
        in_rect(x, y, x0, y0, cols, rows),
    ensures
        rect(x0, y0, cols, rows, pixel).len() == rows * cols,
        0 <= (y - y0) * cols + (x - x0) < rows * cols,
        rect(x0, y0, cols, rows, pixel)[(y - y0) * cols + (x - x0)] == paint(x, y, pixel(x, y)),
{
    lemma_rect_rows_layout(rows, x0, y0, cols, pixel, x, y);
}

/// Every store of a rectangle paints a pixel of the rectangle, as `pixel`
/// has it.
pub proof fn lemma_rect_paints_inside(
    x0: int,
    y0: int,
    cols: int,
    rows: int,
    pixel: spec_fn(int, int) -> u32,
    i: int,
)
    requires
        0 <= i < rect(x0, y0, cols, rows, pixel).len(),
    ensures
        in_rect(x0 + i % cols, y0 + i / cols, x0, y0, cols, rows),
        rect(x0, y0, cols, rows, pixel)[i] == paint(
            x0 + i % cols,
            y0 + i / cols,
            pixel(x0 + i % cols, y0 + i / cols),
        ),
{
    lemma_rect_rows_len(rows, x0, y0, cols, pixel);
    lemma_fundamental_div_mod(i, cols);
    let k = i % cols;
    let j = i / cols;
    assert(0 <= j < rows) by (nonlinear_arith)
        requires
            0 <= i < rows * cols,
            i == cols * j + k,
            0 <= k < cols,
    ;
    lemma_rect_layout(x0, y0, cols, rows, pixel, x0 + k, y0 + j);
    assert(j * cols + k == i) by (nonlinear_arith)
        requires
            i == cols * j + k,
    ;
}

/// What painting a rectangle leaves in the frame buffer, whatever was there
/// before: the pixels of the rectangle are as `pixel` has them, and every
/// other drawable pixel is as it was.
pub proof fn lemma_rect_leaves(
    before: Machine,
    x0: int,
    y0: int,
    cols: int,
    rows: int,
    pixel: spec_fn(int, int) -> u32,
    x: int,
    y: int,
)
    requires
        cols > 0 && rows > 0 ==> drawable(x0, y0) && drawable(x0 + cols - 1, y0 + rows - 1),
        drawable(x, y),
    ensures
        (before.after_all(rect(x0, y0, cols, rows, pixel)).word)(pixel_addr(x, y) as u32)
            == if cols > 0 && rows > 0 && in_rect(x, y, x0, y0, cols, rows) {
            pixel(x, y)
        } else {
            (before.word)(pixel_addr(x, y) as u32)
        },
{
    let stores = rect(x0, y0, cols, rows, pixel);
    let addr = pixel_addr(x, y) as u32;
    let inside = cols > 0 && rows > 0 && in_rect(x, y, x0, y0, cols, rows);
    assert forall|i: int|
        0 <= i < stores.len() && #[trigger] stores[i] is Word && stores[i]->Word_addr
            == addr implies stores[i]->Word_value == pixel(x, y) && inside by {
        lemma_rect_paints_inside(x0, y0, cols, rows, pixel, i);
        lemma_pixels_apart(x0 + i % cols, y0 + i / cols, x, y);
    }
    lemma_word_after(before, stores, addr, pixel(x, y));
    if inside {
        lemma_rect_layout(x0, y0, cols, rows, pixel, x, y);
        let i = (y - y0) * cols + (x - x0);
        assert(stores[i] is Word && stores[i]->Word_addr == addr);
        assert(writes_word(stores, addr));
    } else if writes_word(stores, addr) {
        let i = choose|i: int|
            0 <= i < stores.len() && #[trigger] stores[i] is Word && stores[i]->Word_addr == addr;
        assert(inside);
    }
}

} // verus!
