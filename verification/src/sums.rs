//! Sums over the channels of a row-major grid of four-channel texels, and the
//! facts that let a sum over the whole grid be taken tile by tile.
use vstd::prelude::*;
use crate::vec4::clamp;

verus! {

/// Sum of channel `c` over the first `n` texels of `t`.
pub open spec fn flat_sum(t: Seq<[u64; 4]>, n: int, c: int) -> int
    decreases n,
{
    if n <= 0 {
        0
    } else {
        flat_sum(t, n - 1, c) + t[n - 1][c] as int
    }
}

/// Sum of channel `c` over the texels of row `y` in columns `x0 .. x1` of a grid `w` texels wide.
pub open spec fn row_sum(t: Seq<[u64; 4]>, w: int, y: int, x0: int, x1: int, c: int) -> int
    decreases x1 - x0,
{
    if x1 <= x0 {
        0
    } else {
        row_sum(t, w, y, x0, x1 - 1, c) + t[y * w + x1 - 1][c] as int
    }
}

/// Sum of channel `c` over the block of columns `x0 .. x1` and rows `y0 .. y1`.
pub open spec fn block_sum(
    t: Seq<[u64; 4]>,
    w: int,
    x0: int,
    x1: int,
    y0: int,
    y1: int,
    c: int,
) -> int
    decreases y1 - y0,
{
    if y1 <= y0 {
        0
    } else {
        block_sum(t, w, x0, x1, y0, y1 - 1, c) + row_sum(t, w, y1 - 1, x0, x1, c)
    }
}

/// A texel inside a `w` by `h` grid has its row-major index inside the grid's length.
pub proof fn lemma_index_in_grid(w: int, h: int, x: int, y: int)
    requires
        0 <= x < w,
        0 <= y < h,
    ensures
        0 <= y * w <= y * w + x < w * h,
{
    assert(y * w >= 0) by (nonlinear_arith)
        requires
            y >= 0,
            w >= 0,
    ;
    assert((y + 1) * w <= h * w) by (nonlinear_arith)
        requires
            y + 1 <= h,
            w >= 0,
    ;
    assert((y + 1) * w == y * w + w) by (nonlinear_arith);
    assert(h * w == w * h) by (nonlinear_arith);
}

pub proof fn lemma_flat_sum_nonneg(t: Seq<[u64; 4]>, n: int, c: int)
    ensures
        flat_sum(t, n, c) >= 0,
    decreases n,
{
    if n > 0 {
        lemma_flat_sum_nonneg(t, n - 1, c);
    }
}

pub proof fn lemma_row_sum_nonneg(t: Seq<[u64; 4]>, w: int, y: int, x0: int, x1: int, c: int)
    ensures
        row_sum(t, w, y, x0, x1, c) >= 0,
    decreases x1 - x0,
{
    if x1 > x0 {
        lemma_row_sum_nonneg(t, w, y, x0, x1 - 1, c);
    }
}

pub proof fn lemma_block_sum_nonneg(
    t: Seq<[u64; 4]>,
    w: int,
    x0: int,
    x1: int,
    y0: int,
    y1: int,
    c: int,
)
    ensures
        block_sum(t, w, x0, x1, y0, y1, c) >= 0,
    decreases y1 - y0,
{
    if y1 > y0 {
        lemma_block_sum_nonneg(t, w, x0, x1, y0, y1 - 1, c);
        lemma_row_sum_nonneg(t, w, y1 - 1, x0, x1, c);
    }
}

/// A row's sum over `x0 .. x2` is the sum over `x0 .. x1` plus the sum over `x1 .. x2`.
pub proof fn lemma_row_split(
    t: Seq<[u64; 4]>,
    w: int,
    y: int,
    x0: int,
    x1: int,
    x2: int,
    c: int,
)
    requires
        x0 <= x1 <= x2,
    ensures
        row_sum(t, w, y, x0, x2, c) == row_sum(t, w, y, x0, x1, c) + row_sum(t, w, y, x1, x2, c),
    decreases x2 - x1,
{
    if x2 > x1 {
        lemma_row_split(t, w, y, x0, x1, x2 - 1, c);
    }
}

/// A block's sum splits at any column between its two sides.
pub proof fn lemma_block_split_columns(
    t: Seq<[u64; 4]>,
    w: int,
    x0: int,
    x1: int,
    x2: int,
    y0: int,
    y1: int,
    c: int,
)
    requires
        x0 <= x1 <= x2,
    ensures
        block_sum(t, w, x0, x2, y0, y1, c) == block_sum(t, w, x0, x1, y0, y1, c) + block_sum(
            t,
            w,
            x1,
            x2,
            y0,
            y1,
            c,
        ),
    decreases y1 - y0,
{
    if y1 > y0 {
        lemma_block_split_columns(t, w, x0, x1, x2, y0, y1 - 1, c);
        lemma_row_split(t, w, y1 - 1, x0, x1, x2, c);
    }
}

/// A block's sum splits at any row between its top and its bottom.
pub proof fn lemma_block_split_rows(
    t: Seq<[u64; 4]>,
    w: int,
    x0: int,
    x1: int,
    y0: int,
    y1: int,
    y2: int,
    c: int,
)
    requires
        y0 <= y1 <= y2,
    ensures
        block_sum(t, w, x0, x1, y0, y2, c) == block_sum(t, w, x0, x1, y0, y1, c) + block_sum(
            t,
            w,
            x0,
            x1,
            y1,
            y2,
            c,
        ),
    decreases y2 - y1,
{
    if y2 > y1 {
        lemma_block_split_rows(t, w, x0, x1, y0, y1, y2 - 1, c);
    }
}

/// The first `y * w + x` texels are the first `y` rows and the first `x` texels of row `y`.
pub proof fn lemma_flat_sum_rows(t: Seq<[u64; 4]>, w: int, y: int, x: int, c: int)
    requires
        0 <= y,
        0 <= x <= w,
    ensures
        flat_sum(t, y * w + x, c) == block_sum(t, w, 0, w, 0, y, c) + row_sum(t, w, y, 0, x, c),
    decreases y, x,
{
    if x > 0 {
        lemma_flat_sum_rows(t, w, y, x - 1, c);
        assert(y * w >= 0) by (nonlinear_arith)
            requires
                y >= 0,
                w >= 0,
        ;
    } else if y > 0 {
        lemma_flat_sum_rows(t, w, y - 1, w, c);
        assert((y - 1) * w + w == y * w) by (nonlinear_arith);
    } else {
        assert(0 * w + 0 == 0);
    }
}

/// The sum over all texels of a `w` by `h` grid is the sum over the block that covers it.
pub proof fn lemma_flat_sum_is_block_sum(t: Seq<[u64; 4]>, w: int, h: int, c: int)
    requires
        0 <= w,
        0 <= h,
    ensures
        flat_sum(t, w * h, c) == block_sum(t, w, 0, w, 0, h, c),
{
    lemma_flat_sum_rows(t, w, h, 0, c);
    assert(h * w + 0 == w * h) by (nonlinear_arith);
}

/// Two sums of non-negative parts clamp alike when their parts clamp alike.
pub proof fn lemma_clamp_add(a: int, b: int, a2: int, b2: int)
    requires
        0 <= a,
        0 <= b,
        0 <= a2,
        0 <= b2,
        clamp(a) == clamp(a2),
        clamp(b) == clamp(b2),
    ensures
        clamp(a + b) == clamp(a2 + b2),
{
}

} // verus!
