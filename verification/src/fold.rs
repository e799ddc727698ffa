//! The tree fold: an image is shrunk tile by tile, each tile of texels summed into one
//! texel, at most twice, and what is left is summed texel by texel.
use vstd::prelude::*;
use crate::pool::{with_shape, ScratchPool};
use crate::raster::{indexable, Raster};
use crate::sums::{
    block_sum, flat_sum, lemma_block_split_columns, lemma_block_split_rows, lemma_block_sum_nonneg,
    lemma_clamp_add, lemma_flat_sum_is_block_sum, lemma_flat_sum_nonneg, lemma_index_in_grid,
    lemma_row_sum_nonneg, row_sum,
};
use crate::vec4::{clamp, vec4_add, vec4_div};

verus! {

/// Side of the square of invocations in one workgroup.
pub const WG_SIZE: u32 = 16;

/// Side of the square of texels that one pass folds into a single texel: each invocation
/// of a workgroup reads two texels along each axis.
pub const TILE: u32 = 32;

/// Whether a `width` by `height` image is cut into whole tiles.
pub open spec fn tileable(width: u32, height: u32) -> bool {
    width % TILE == 0 && height % TILE == 0
}

/// The workgroup grids of the passes that fold one image.
#[derive(Clone, Copy, Debug, PartialEq, Eq)]
pub struct FoldPlan {
    /// Grid of the first pass, which is also the size of what it writes.
    pub first: (u32, u32),
    /// Grid of the second pass, where there is one.
    pub second: Option<(u32, u32)>,
}

/// The plan for a tileable image: one pass over its tiles, and a second pass over the
/// tiles of the result where that result is tileable itself.
pub open spec fn plan_of(width: u32, height: u32) -> FoldPlan {
    let gx = (width / TILE) as u32;
    let gy = (height / TILE) as u32;
    FoldPlan {
        first: (gx, gy),
        second: if tileable(gx, gy) {
            Some(((gx / TILE) as u32, (gy / TILE) as u32))
        } else {
            None
        },
    }
}

/// Plans the fold of a `width` by `height` image. There is no plan for an image that is
/// not cut into whole tiles.
pub fn fold_plan(width: u32, height: u32) -> (plan: Option<FoldPlan>)
    ensures
        plan is Some <==> tileable(width, height),
        plan matches Some(p) ==> p == plan_of(width, height),
{
    if width % TILE != 0 || height % TILE != 0 {
        return None;
    }
    let gx: u32 = width / TILE;
    let gy: u32 = height / TILE;
    let second = if gx % TILE == 0 && gy % TILE == 0 {
        Some((gx / TILE, gy / TILE))
    } else {
        None
    };
    Some(FoldPlan { first: (gx, gy), second })
}

/// Sum of channel `c` over the tile in column `i` and row `j` of the tiling of `src`.
pub open spec fn tile_sum(src: &Raster, i: int, j: int, c: int) -> int {
    block_sum(
        src@,
        src.spec_width() as int,
        TILE * i,
        TILE * i + TILE,
        TILE * j,
        TILE * j + TILE,
        c,
    )
}

/// Whether `out` is what one pass over a `gx` by `gy` grid makes of `src`: one texel per
/// tile, each channel the clamped sum of that channel over the tile.
pub open spec fn is_fold_of(out: &Raster, src: &Raster, gx: int, gy: int) -> bool {
    &&& out.wf()
    &&& out.spec_width() == gx
    &&& out.spec_height() == gy
    &&& forall|i: int, j: int, c: int|
        0 <= i < gx && 0 <= j < gy && 0 <= c < 4 ==> out.texel(i, j)[c] as int == clamp(
            #[trigger] tile_sum(src, i, j, c),
        )
}

/// In row-major order a texel of an earlier row comes before any texel of a later row.
proof fn lemma_rows_in_order(w: int, i1: int, j1: int, i2: int, j2: int)
    requires
        0 <= i1 < w,
        0 <= i2,
        0 <= j1 < j2,
    ensures
        j1 * w + i1 < j2 * w + i2,
{
    assert((j1 + 1) * w <= j2 * w) by (nonlinear_arith)
        requires
            j1 + 1 <= j2,
            w >= 0,
    ;
    assert((j1 + 1) * w == j1 * w + w) by (nonlinear_arith);
}

/// Sums one tile of `src`.
fn fold_tile(src: &Raster, i: u32, j: u32) -> (acc: [u64; 4])
    requires
        src.wf(),
        TILE * i + TILE <= src.spec_width(),
        TILE * j + TILE <= src.spec_height(),
    ensures
        forall|c: int|
            0 <= c < 4 ==> acc[c] as int == clamp(#[trigger] tile_sum(src, i as int, j as int, c)),
{
    let x0: u32 = TILE * i;
    let y0: u32 = TILE * j;
    let ghost t = src@;
    let ghost w = src.spec_width() as int;
    let mut acc: [u64; 4] = [0, 0, 0, 0];
    let mut dy: u32 = 0;
    while dy < TILE
        invariant
            src.wf(),
            t == src@,
            w == src.spec_width(),
            x0 == TILE * i,
            y0 == TILE * j,
            x0 + TILE <= src.spec_width(),
            y0 + TILE <= src.spec_height(),
            dy <= TILE,
            forall|c: int|
                0 <= c < 4 ==> (#[trigger] acc[c]) as int == clamp(
                    block_sum(t, w, x0 as int, x0 + TILE, y0 as int, y0 + dy, c),
                ),
        decreases TILE - dy,
    {
        let mut dx: u32 = 0;
        while dx < TILE
            invariant
                src.wf(),
                t == src@,
                w == src.spec_width(),
                x0 + TILE <= src.spec_width(),
                y0 + TILE <= src.spec_height(),
                dy < TILE,
                dx <= TILE,
                forall|c: int|
                    0 <= c < 4 ==> (#[trigger] acc[c]) as int == clamp(
                        block_sum(t, w, x0 as int, x0 + TILE, y0 as int, y0 + dy, c) + row_sum(
                            t,
                            w,
                            y0 + dy,
                            x0 as int,
                            x0 + dx,
                            c,
                        ),
                    ),
            decreases TILE - dx,
        {
            let texel = src.get(x0 + dx, y0 + dy);
            let ghost before = acc;
            acc = vec4_add(acc, texel);
            proof {
                assert forall|c: int| 0 <= c < 4 implies (#[trigger] acc[c]) as int == clamp(
                    block_sum(t, w, x0 as int, x0 + TILE, y0 as int, y0 + dy, c) + row_sum(
                        t,
                        w,
                        y0 + dy,
                        x0 as int,
                        x0 + dx + 1,
                        c,
                    ),
                ) by {
                    let b = block_sum(t, w, x0 as int, x0 + TILE, y0 as int, y0 + dy, c);
                    let r = row_sum(t, w, y0 + dy, x0 as int, x0 + dx, c);
                    lemma_block_sum_nonneg(t, w, x0 as int, x0 + TILE, y0 as int, y0 + dy, c);
                    lemma_row_sum_nonneg(t, w, y0 + dy, x0 as int, x0 + dx, c);
                    assert(before[c] as int == clamp(b + r));
                    lemma_index_in_grid(w, src.spec_height() as int, x0 + dx, y0 + dy);
                    assert(texel[c] == t[(y0 + dy) * w + (x0 + dx)][c]);
                    assert(row_sum(t, w, y0 + dy, x0 as int, x0 + dx + 1, c) == r + texel[c]);
                    lemma_clamp_add(before[c] as int, texel[c] as int, b + r, texel[c] as int);
                }
            }
            dx += 1;
        }
        proof {
            assert forall|c: int| 0 <= c < 4 implies (#[trigger] acc[c]) as int == clamp(
                block_sum(t, w, x0 as int, x0 + TILE, y0 as int, y0 + dy + 1, c),
            ) by {
                assert(block_sum(t, w, x0 as int, x0 + TILE, y0 as int, y0 + dy + 1, c)
                    == block_sum(t, w, x0 as int, x0 + TILE, y0 as int, y0 + dy, c) + row_sum(
                    t,
                    w,
                    y0 + dy,
                    x0 as int,
                    x0 + TILE,
                    c,
                ));
            }
        }
        dy += 1;
    }
    acc
}

/// Runs one pass: fills `dst`, a `gx` by `gy` image, with the tile sums of `src`.
fn fold_into(src: &Raster, dst: Raster) -> (out: Raster)
    requires
        src.wf(),
        dst.wf(),
        TILE * dst.spec_width() <= src.spec_width(),
        TILE * dst.spec_height() <= src.spec_height(),
    ensures
        is_fold_of(&out, src, dst.spec_width() as int, dst.spec_height() as int),
{
    let gx: u32 = dst.get_width();
    let gy: u32 = dst.get_height();
    let mut out = dst;
    let mut j: u32 = 0;
    while j < gy
        invariant
            src.wf(),
            out.wf(),
            out.spec_width() == gx,
            out.spec_height() == gy,
            TILE * gx <= src.spec_width(),
            TILE * gy <= src.spec_height(),
            j <= gy,
            forall|i2: int, j2: int, c: int|
                0 <= i2 < gx && 0 <= j2 < j && 0 <= c < 4 ==> out.texel(i2, j2)[c] as int
                    == clamp(#[trigger] tile_sum(src, i2, j2, c)),
        decreases gy - j,
    {
        let mut i: u32 = 0;
        while i < gx
            invariant
                src.wf(),
                out.wf(),
                out.spec_width() == gx,
                out.spec_height() == gy,
                TILE * gx <= src.spec_width(),
                TILE * gy <= src.spec_height(),
                j < gy,
                i <= gx,
                forall|i2: int, j2: int, c: int|
                    0 <= i2 < gx && 0 <= j2 < j && 0 <= c < 4 ==> out.texel(i2, j2)[c] as int
                        == clamp(#[trigger] tile_sum(src, i2, j2, c)),
                forall|i2: int, c: int|
                    0 <= i2 < i && 0 <= c < 4 ==> out.texel(i2, j as int)[c] as int == clamp(
                        #[trigger] tile_sum(src, i2, j as int, c),
                    ),
            decreases gx - i,
        {
            let texel = fold_tile(src, i, j);
            let ghost before = out;
            out.set(i, j, texel);
            proof {
                lemma_index_in_grid(gx as int, gy as int, i as int, j as int);
                assert forall|i2: int, j2: int, c: int|
                    0 <= i2 < gx && 0 <= j2 < j && 0 <= c < 4 implies out.texel(i2, j2)[c] as int
                    == clamp(#[trigger] tile_sum(src, i2, j2, c)) by {
                    lemma_rows_in_order(gx as int, i2, j2, i as int, j as int);
                    lemma_index_in_grid(gx as int, gy as int, i2, j2);
                    assert(out.texel(i2, j2) == before.texel(i2, j2));
                }
                assert forall|i2: int, c: int| 0 <= i2 < i + 1 && 0 <= c < 4 implies out.texel(
                    i2,
                    j as int,
                )[c] as int == clamp(#[trigger] tile_sum(src, i2, j as int, c)) by {
                    lemma_index_in_grid(gx as int, gy as int, i2, j as int);
                    if i2 < i {
                        assert(out.texel(i2, j as int) == before.texel(i2, j as int));
                    } else {
                        assert(out.texel(i2, j as int) == texel);
                    }
                }
            }
            i += 1;
        }
        j += 1;
    }
    out
}

/// Along one row of tiles, the folded texels sum to what the tiles themselves sum to.
proof fn lemma_fold_row(out: &Raster, src: &Raster, gx: int, gy: int, j: int, n: int, c: int)
    requires
        is_fold_of(out, src, gx, gy),
        0 <= j < gy,
        0 <= n <= gx,
        0 <= c < 4,
    ensures
        clamp(row_sum(out@, gx, j, 0, n, c)) == clamp(
            block_sum(src@, src.spec_width() as int, 0, TILE * n, TILE * j, TILE * j + TILE, c),
        ),
    decreases n,
{
    let w = src.spec_width() as int;
    if n > 0 {
        lemma_fold_row(out, src, gx, gy, j, n - 1, c);
        let head = row_sum(out@, gx, j, 0, n - 1, c);
        let last = out@[j * gx + n - 1][c] as int;
        let head_src = block_sum(src@, w, 0, TILE * (n - 1), TILE * j, TILE * j + TILE, c);
        let last_src = tile_sum(src, n - 1, j, c);
        assert(out.texel(n - 1, j)[c] as int == clamp(last_src));
        assert(out.texel(n - 1, j) == out@[j * gx + n - 1]);
        lemma_block_split_columns(
            src@,
            w,
            0,
            TILE * (n - 1),
            TILE * n,
            TILE * j,
            TILE * j + TILE,
            c,
        );
        assert(TILE * (n - 1) + TILE == TILE * n);
        lemma_row_sum_nonneg(out@, gx, j, 0, n - 1, c);
        lemma_block_sum_nonneg(src@, w, 0, TILE * (n - 1), TILE * j, TILE * j + TILE, c);
        lemma_block_sum_nonneg(src@, w, TILE * (n - 1), TILE * n, TILE * j, TILE * j + TILE, c);
        lemma_clamp_add(head, last, head_src, last_src);
    } else {
        lemma_block_split_columns(src@, w, 0, 0, 0, TILE * j, TILE * j + TILE, c);
    }
}

/// Over the first `m` rows of tiles, the folded texels sum to what the tiles sum to.
proof fn lemma_fold_rows(out: &Raster, src: &Raster, gx: int, gy: int, m: int, c: int)
    requires
        is_fold_of(out, src, gx, gy),
        TILE * gx == src.spec_width(),
        0 <= m <= gy,
        0 <= c < 4,
    ensures
        clamp(block_sum(out@, gx, 0, gx, 0, m, c)) == clamp(
            block_sum(
                src@,
                src.spec_width() as int,
                0,
                src.spec_width() as int,
                0,
                TILE * m,
                c,
            ),
        ),
    decreases m,
{
    let w = src.spec_width() as int;
    if m > 0 {
        lemma_fold_rows(out, src, gx, gy, m - 1, c);
        lemma_fold_row(out, src, gx, gy, m - 1, gx, c);
        lemma_block_split_rows(src@, w, 0, w, 0, TILE * (m - 1), TILE * m, c);
        assert(TILE * (m - 1) + TILE == TILE * m);
        lemma_block_sum_nonneg(out@, gx, 0, gx, 0, m - 1, c);
        lemma_row_sum_nonneg(out@, gx, m - 1, 0, gx, c);
        lemma_block_sum_nonneg(src@, w, 0, w, 0, TILE * (m - 1), c);
        lemma_block_sum_nonneg(src@, w, 0, w, TILE * (m - 1), TILE * m, c);
        lemma_clamp_add(
            block_sum(out@, gx, 0, gx, 0, m - 1, c),
            row_sum(out@, gx, m - 1, 0, gx, c),
            block_sum(src@, w, 0, w, 0, TILE * (m - 1), c),
            block_sum(src@, w, 0, w, TILE * (m - 1), TILE * m, c),
        );
    }
}

/// A pass over the whole of an image keeps each channel's total: what the folded image
/// sums to, clamped, is what the image itself sums to, clamped.
pub proof fn lemma_fold_keeps_total(out: &Raster, src: &Raster, gx: int, gy: int, c: int)
    requires
        src.wf(),
        is_fold_of(out, src, gx, gy),
        0 <= gx,
        0 <= gy,
        TILE * gx == src.spec_width(),
        TILE * gy == src.spec_height(),
        0 <= c < 4,
    ensures
        clamp(out.channel_total(c)) == clamp(src.channel_total(c)),
{
    lemma_fold_rows(out, src, gx, gy, gy, c);
    lemma_flat_sum_is_block_sum(out@, gx, gy, c);
    lemma_flat_sum_is_block_sum(src@, src.spec_width() as int, src.spec_height() as int, c);
}

/// Sums an image texel by texel.
pub fn sum_texels(img: &Raster) -> (total: [u64; 4])
    ensures
        forall|c: int| 0 <= c < 4 ==> (#[trigger] total[c]) as int == clamp(img.channel_total(c)),
{
    let n: usize = img.len();
    let mut total: [u64; 4] = [0, 0, 0, 0];
    let mut k: usize = 0;
    while k < n
        invariant
            n == img@.len(),
            k <= n,
            forall|c: int|
                0 <= c < 4 ==> (#[trigger] total[c]) as int == clamp(flat_sum(img@, k as int, c)),
        decreases n - k,
    {
        let texel = img.texel_at(k);
        let ghost before = total;
        total = vec4_add(total, texel);
        proof {
            assert forall|c: int| 0 <= c < 4 implies (#[trigger] total[c]) as int == clamp(
                flat_sum(img@, k + 1, c),
            ) by {
                lemma_flat_sum_nonneg(img@, k as int, c);
                assert(before[c] as int == clamp(flat_sum(img@, k as int, c)));
                lemma_clamp_add(
                    before[c] as int,
                    texel[c] as int,
                    flat_sum(img@, k as int, c),
                    texel[c] as int,
                );
            }
        }
        k += 1;
    }
    total
}

/// Whether an image is well formed and has the size that `shape` names.
pub open spec fn has_shape(img: &Raster, shape: (u32, u32)) -> bool {
    &&& img.wf()
    &&& img.spec_width() == shape.0
    &&& img.spec_height() == shape.1
}

/// The fold engine: it owns the scratch images that the passes write, one per size.
pub struct TexFold {
    tex_cache: ScratchPool<Raster>,
}

impl TexFold {
    /// The scratch images by size.
    pub closed spec fn cache(&self) -> ScratchPool<Raster> {
        self.tex_cache
    }

    /// Every scratch image has the size it is stored under.
    pub open spec fn wf(&self) -> bool {
        &&& self.cache().wf()
        &&& forall|s: int|
            0 <= s < self.cache().shapes().len() ==> has_shape(
                #[trigger] &self.cache().items()[s],
                self.cache().shapes()[s],
            )
    }

    /// An engine without scratch images.
    pub fn new() -> (fold: Self)
        ensures
            fold.wf(),
            fold.cache().shapes().len() == 0,
    {
        TexFold { tex_cache: ScratchPool::new() }
    }

    /// The slot of the scratch image of a size; the image is made on first use.
    pub fn get_cached_tex(&mut self, width: u32, height: u32) -> (slot: usize)
        requires
            old(self).wf(),
            width * height <= usize::MAX,
        ensures
            final(self).wf(),
            final(self).cache().shapes() == with_shape(old(self).cache().shapes(), (width, height)),
            slot < final(self).cache().shapes().len(),
            final(self).cache().shapes()[slot as int] == (width, height),
            forall|s: int|
                0 <= s < old(self).cache().shapes().len() ==> final(self).cache().items()[s] == old(self).cache().items()[s],
    {
        let make = || -> (img: Raster)
            requires indexable(width, height)
            ensures has_shape(&img, (width, height))
            { Raster::zeroed(width, height) };
        self.tex_cache.get_or_insert_with(width, height, make)
    }

    /// The scratch image in a slot.
    pub fn scratch(&self, slot: usize) -> (img: &Raster)
        requires
            self.wf(),
            slot < self.cache().shapes().len(),
        ensures
            *img == self.cache().items()[slot as int],
            has_shape(img, self.cache().shapes()[slot as int]),
    {
        self.tex_cache.get(slot)
    }

    /// Runs one pass over `tex_in` with a `wg_x` by `wg_y` grid, into the scratch image of
    /// that size, and says in which slot the result lies.
    pub fn run_compute(&mut self, wg_x: u32, wg_y: u32, tex_in: &Raster) -> (slot: usize)
        requires
            old(self).wf(),
            tex_in.wf(),
            TILE * wg_x <= tex_in.spec_width(),
            TILE * wg_y <= tex_in.spec_height(),
        ensures
            final(self).wf(),
            final(self).cache().shapes() == with_shape(old(self).cache().shapes(), (wg_x, wg_y)),
            slot < final(self).cache().shapes().len(),
            final(self).cache().shapes()[slot as int] == (wg_x, wg_y),
            is_fold_of(&final(self).cache().items()[slot as int], tex_in, wg_x as int, wg_y as int),
            forall|s: int|
                0 <= s < old(self).cache().shapes().len() && s != slot ==> final(self).cache().items()[s] == old(self).cache().items()[s],
    {
        let n: usize = tex_in.len();
        proof {
            lemma_grid_fits(
                wg_x as int,
                wg_y as int,
                tex_in.spec_width() as int,
                tex_in.spec_height() as int,
            );
        }
        let slot = self.get_cached_tex(wg_x, wg_y);
        let buf = self.tex_cache.replace(slot, Raster::empty());
        let out = fold_into(tex_in, buf);
        let _ = self.tex_cache.replace(slot, out);
        slot
    }

    /// Runs one pass over the scratch image in slot `src`, as `run_compute` does over an
    /// image of the caller's.
    fn run_compute_cached(&mut self, wg_x: u32, wg_y: u32, src: usize) -> (slot: usize)
        requires
            old(self).wf(),
            src < old(self).cache().shapes().len(),
            TILE * wg_x <= old(self).cache().shapes()[src as int].0,
            TILE * wg_y <= old(self).cache().shapes()[src as int].1,
        ensures
            final(self).wf(),
            final(self).cache().shapes() == with_shape(old(self).cache().shapes(), (wg_x, wg_y)),
            slot < final(self).cache().shapes().len(),
            final(self).cache().shapes()[slot as int] == (wg_x, wg_y),
            is_fold_of(
                &final(self).cache().items()[slot as int],
                &old(self).cache().items()[src as int],
                wg_x as int,
                wg_y as int,
            ),
            forall|s: int|
                0 <= s < old(self).cache().shapes().len() && s != slot ==> final(self).cache().items()[s] == old(self).cache().items()[s],
    {
        let ghost source = old(self).cache().items()[src as int];
        let n: usize = self.tex_cache.get(src).len();
        proof {
            lemma_grid_fits(
                wg_x as int,
                wg_y as int,
                source.spec_width() as int,
                source.spec_height() as int,
            );
        }
        let slot = self.get_cached_tex(wg_x, wg_y);
        let buf = self.tex_cache.replace(slot, Raster::empty());
        let out = fold_into(self.tex_cache.get(src), buf);
        let _ = self.tex_cache.replace(slot, out);
        slot
    }

    /// Sums all texels of `tex_src`, channel by channel: one pass over its tiles, a second
    /// pass where the result of the first is tileable too, and a plain sum of what is
    /// left. A channel whose sum is too large for it holds the largest value.
    pub fn run(&mut self, tex_src: &Raster) -> (total: [u64; 4])
        requires
            old(self).wf(),
            tex_src.wf(),
            tileable(tex_src.spec_width(), tex_src.spec_height()),
        ensures
            final(self).wf(),
            forall|c: int|
                0 <= c < 4 ==> (#[trigger] total[c]) as int == clamp(tex_src.channel_total(c)),
            final(self).cache().shapes() == shapes_after_run(
                old(self).cache().shapes(),
                plan_of(tex_src.spec_width(), tex_src.spec_height()),
            ),
    {
        let size_x = tex_src.get_width();
        let size_y = tex_src.get_height();
        let mut wg_x: u32 = size_x / TILE;
        let mut wg_y: u32 = size_y / TILE;

        // first iteration
        let slot1 = self.run_compute(wg_x, wg_y, tex_src);
        let ghost first = self.cache().items()[slot1 as int];
        proof {
            assert forall|c: int| 0 <= c < 4 implies clamp(first.channel_total(c)) == clamp(
                tex_src.channel_total(c),
            ) by {
                lemma_fold_keeps_total(&first, tex_src, wg_x as int, wg_y as int, c);
            }
        }

        // a second one pays only where the first result is cut into whole tiles again
        let slot_out = if wg_x % TILE == 0 && wg_y % TILE == 0 {
            wg_x = wg_x / TILE;
            wg_y = wg_y / TILE;
            let slot2 = self.run_compute_cached(wg_x, wg_y, slot1);
            proof {
                let second = self.cache().items()[slot2 as int];
                assert forall|c: int| 0 <= c < 4 implies clamp(second.channel_total(c)) == clamp(
                    tex_src.channel_total(c),
                ) by {
                    lemma_fold_keeps_total(&second, &first, wg_x as int, wg_y as int, c);
                }
            }
            slot2
        } else {
            slot1
        };

        // fold the small result into the final value
        sum_texels(self.tex_cache.get(slot_out))
    }
}

/// Sums all texels of `tex_src` as `TexFold::run` does, where it is cut into whole
/// tiles. Where it is not, nothing is done and there is no sum.
pub fn try_run(fold: &mut TexFold, tex_src: &Raster) -> (total: Option<[u64; 4]>)
    requires
        old(fold).wf(),
        tex_src.wf(),
    ensures
        final(fold).wf(),
        total is Some <==> tileable(tex_src.spec_width(), tex_src.spec_height()),
        total is None ==> *final(fold) == *old(fold),
        total matches Some(sums) ==> {
            &&& forall|c: int|
                0 <= c < 4 ==> (#[trigger] sums[c]) as int == clamp(tex_src.channel_total(c))
            &&& final(fold).cache().shapes() == shapes_after_run(
                old(fold).cache().shapes(),
                plan_of(tex_src.spec_width(), tex_src.spec_height()),
            )
        },
{
    match fold_plan(tex_src.get_width(), tex_src.get_height()) {
        Some(_) => Some(fold.run(tex_src)),
        None => None,
    }
}

/// The average texel of `img`, channel by channel: each channel's sum, as `run` gives it,
/// divided by the number of texels and rounded down. An image without texels has none.
pub fn average_color(fold: &mut TexFold, img: &Raster) -> (avg: Option<[u64; 4]>)
    requires
        old(fold).wf(),
        img.wf(),
        tileable(img.spec_width(), img.spec_height()),
    ensures
        final(fold).wf(),
        final(fold).cache().shapes() == shapes_after_run(
            old(fold).cache().shapes(),
            plan_of(img.spec_width(), img.spec_height()),
        ),
        avg is None <==> img@.len() == 0,
        avg matches Some(color) ==> forall|c: int|
            0 <= c < 4 ==> (#[trigger] color[c]) as int == clamp(img.channel_total(c))
                / img@.len() as int,
{
    let total = fold.run(img);
    let count: usize = img.len();
    if count == 0 {
        None
    } else {
        Some(vec4_div(total, count as u64))
    }
}

/// The shapes in a cache after the passes of `plan` have asked for their scratch images.
pub open spec fn shapes_after_run(shapes: Seq<(u32, u32)>, plan: FoldPlan) -> Seq<(u32, u32)> {
    let after_first = with_shape(shapes, plan.first);
    match plan.second {
        Some(grid) => with_shape(after_first, grid),
        None => after_first,
    }
}

/// A grid of whole tiles inside an image has no more cells than the image has texels.
proof fn lemma_grid_fits(gx: int, gy: int, w: int, h: int)
    requires
        0 <= gx,
        0 <= gy,
        TILE * gx <= w,
        TILE * gy <= h,
    ensures
        gx * gy <= w * h,
{
    assert(gx * gy <= w * h) by (nonlinear_arith)
        requires
            0 <= gx <= w,
            0 <= gy <= h,
    ;
}

} // verus!
