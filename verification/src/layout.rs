use vstd::arithmetic::div_mod::{lemma_fundamental_div_mod, lemma_mod_bound};
use vstd::arithmetic::mul::{lemma_mul_inequality, lemma_mul_nonnegative};
use vstd::prelude::*;

verus! {

/// An axis-aligned rectangle in whole logical pixels.
#[derive(Clone, Copy, Debug, PartialEq, Eq, Structural)]
pub struct CellRect {
    pub x: i32,
    pub y: i32,
    pub width: i32,
    pub height: i32,
}

/// The width each cell of an equal split gets: the available width
/// divided by the column count, with no remainder redistribution. The
/// last cell is simply narrower where the division does not come out
/// even.
pub open spec fn cell_width(available_width: int, cols: int) -> int
    recommends
        cols > 0,
{
    available_width / cols
}

/// Where cell `i` of an equal split starts: `i` cell widths past the
/// strip's origin.
pub open spec fn cell_origin(x: int, available_width: int, cols: int, i: int) -> int
    recommends
        cols > 0,
{
    x + i * cell_width(available_width, cols)
}

/// Lay a row of `cols` equal cells over the available width, starting at
/// `(x, y)`: cell `i` is `available_width / cols` wide and starts
/// `i * (available_width / cols)` past `x`, every cell `height` high.
pub fn cell_rects(x: i32, y: i32, available_width: i32, height: i32, cols: i32) -> (rects: Vec<
    CellRect,
>)
    requires
        0 < cols,
        0 <= available_width <= 0x100_0000,
        -0x100_0000 <= x <= 0x100_0000,
        0 <= height,
    ensures
        rects@.len() == cols as int,
        forall|i: int|
            0 <= i < cols as int ==> {
                &&& (#[trigger] rects@[i]).x as int == cell_origin(
                    x as int,
                    available_width as int,
                    cols as int,
                    i,
                )
                &&& rects@[i].y == y
                &&& rects@[i].width as int == cell_width(available_width as int, cols as int)
                &&& rects@[i].height == height
            },
{
    let w: i32 = available_width / cols;
    proof {
        lemma_fundamental_div_mod(available_width as int, cols as int);
        lemma_mod_bound(available_width as int, cols as int);
    }
    assert(0 <= w as int && cols as int * (w as int) <= available_width as int);

    let mut rects: Vec<CellRect> = Vec::new();
    let mut cur_x: i32 = x;
    let mut idx: i32 = 0;
    while idx < cols
        invariant
            0 <= idx <= cols,
            0 < cols,
            0 <= available_width <= 0x100_0000,
            -0x100_0000 <= x <= 0x100_0000,
            w as int == cell_width(available_width as int, cols as int),
            0 <= w,
            cols as int * (w as int) <= available_width as int,
            rects@.len() == idx as int,
            cur_x as int == cell_origin(x as int, available_width as int, cols as int, idx as int),
            idx as int * (w as int) <= available_width as int,
            0 <= idx as int * (w as int),
            forall|i: int|
                0 <= i < idx as int ==> {
                    &&& (#[trigger] rects@[i]).x as int == cell_origin(
                        x as int,
                        available_width as int,
                        cols as int,
                        i,
                    )
                    &&& rects@[i].y == y
                    &&& rects@[i].width as int == cell_width(
                        available_width as int,
                        cols as int,
                    )
                    &&& rects@[i].height == height
                },
        decreases cols - idx,
    {
        rects.push(CellRect { x: cur_x, y, width: w, height });
        proof {
            lemma_mul_inequality(idx as int + 1, cols as int, w as int);
            lemma_mul_nonnegative(idx as int + 1, w as int);
            assert((idx as int + 1) * (w as int) == idx as int * (w as int) + w as int)
                by (nonlinear_arith);
        }
        cur_x = cur_x + w;
        idx = idx + 1;
    }
    rects
}

} // verus!
