//! The error between two images: the sum, over all texels and channels, of the squared
//! differences. It is not divided by the number of texels; scores are only compared.
use vstd::prelude::*;
use crate::dsq::{dsq_total, lemma_dsq_sums, sq_diff, TexDsq};
use crate::fold::{fold_plan, plan_of, shapes_after_run, tileable, TexFold};
use crate::raster::Raster;
use crate::vec4::clamp;

verus! {

/// The sum of the squared differences of two images over all four channels, before it
/// is clamped.
pub open spec fn mse_exact(a: Seq<[u64; 4]>, b: Seq<[u64; 4]>) -> int {
    dsq_total(a, b, a.len() as int, 0) + dsq_total(a, b, a.len() as int, 1) + dsq_total(
        a,
        b,
        a.len() as int,
        2,
    ) + dsq_total(a, b, a.len() as int, 3)
}

/// The error between two images of one size.
pub open spec fn mse(a: Seq<[u64; 4]>, b: Seq<[u64; 4]>) -> int {
    clamp(mse_exact(a, b))
}

pub proof fn lemma_dsq_total_nonneg(a: Seq<[u64; 4]>, b: Seq<[u64; 4]>, n: int, c: int)
    ensures
        dsq_total(a, b, n, c) >= 0,
    decreases n,
{
    if n > 0 {
        lemma_dsq_total_nonneg(a, b, n - 1, c);
        let d = a[n - 1][c] - b[n - 1][c];
        assert(d * d >= 0) by (nonlinear_arith);
    }
}

proof fn lemma_dsq_total_identical(a: Seq<[u64; 4]>, n: int, c: int)
    ensures
        dsq_total(a, a, n, c) == 0,
    decreases n,
{
    if n > 0 {
        lemma_dsq_total_identical(a, n - 1, c);
    }
}

/// An image has no error against itself.
pub proof fn lemma_mse_identical(a: Seq<[u64; 4]>)
    ensures
        mse(a, a) == 0,
{
    lemma_dsq_total_identical(a, a.len() as int, 0);
    lemma_dsq_total_identical(a, a.len() as int, 1);
    lemma_dsq_total_identical(a, a.len() as int, 2);
    lemma_dsq_total_identical(a, a.len() as int, 3);
}

proof fn lemma_dsq_total_symmetric(a: Seq<[u64; 4]>, b: Seq<[u64; 4]>, n: int, c: int)
    ensures
        dsq_total(a, b, n, c) == dsq_total(b, a, n, c),
    decreases n,
{
    if n > 0 {
        lemma_dsq_total_symmetric(a, b, n - 1, c);
        let x = a[n - 1][c] as int;
        let y = b[n - 1][c] as int;
        assert((x - y) * (x - y) == (y - x) * (y - x)) by (nonlinear_arith);
    }
}

/// The error does not depend on which of the two images is named first.
pub proof fn lemma_mse_symmetric(a: Seq<[u64; 4]>, b: Seq<[u64; 4]>)
    requires
        a.len() == b.len(),
    ensures
        mse(a, b) == mse(b, a),
{
    lemma_dsq_total_symmetric(a, b, a.len() as int, 0);
    lemma_dsq_total_symmetric(a, b, a.len() as int, 1);
    lemma_dsq_total_symmetric(a, b, a.len() as int, 2);
    lemma_dsq_total_symmetric(a, b, a.len() as int, 3);
}

/// Whether `b2` is `b` but for channel `c` of texel `k`.
pub open spec fn differs_only_at(b2: Seq<[u64; 4]>, b: Seq<[u64; 4]>, k: int, c: int) -> bool {
    &&& b2.len() == b.len()
    &&& forall|i: int, ch: int|
        0 <= i < b.len() && 0 <= ch < 4 && (i != k || ch != c) ==> (#[trigger] b2[i][ch])
            == b[i][ch]
}

proof fn lemma_dsq_total_one_sample(
    a: Seq<[u64; 4]>,
    b: Seq<[u64; 4]>,
    b2: Seq<[u64; 4]>,
    k: int,
    c: int,
    n: int,
    ch: int,
)
    requires
        differs_only_at(b2, b, k, c),
        0 <= k < b.len(),
        0 <= c < 4,
        0 <= ch < 4,
        0 <= n <= b.len(),
    ensures
        dsq_total(a, b2, n, ch) == dsq_total(a, b, n, ch) + if ch == c && k < n {
            sq_diff(a[k][c], b2[k][c]) - sq_diff(a[k][c], b[k][c])
        } else {
            0
        },
    decreases n,
{
    if n > 0 {
        lemma_dsq_total_one_sample(a, b, b2, k, c, n - 1, ch);
        if n - 1 != k || ch != c {
            assert(b2[n - 1][ch] == b[n - 1][ch]);
        }
    }
}

/// Where only one channel of one texel of the second image changes, the sum of squared
/// differences changes by what that one squared difference changes by.
pub proof fn lemma_mse_one_sample(
    a: Seq<[u64; 4]>,
    b: Seq<[u64; 4]>,
    b2: Seq<[u64; 4]>,
    k: int,
    c: int,
)
    requires
        a.len() == b.len(),
        differs_only_at(b2, b, k, c),
        0 <= k < b.len(),
        0 <= c < 4,
    ensures
        mse_exact(a, b2) == mse_exact(a, b) - sq_diff(a[k][c], b[k][c]) + sq_diff(
            a[k][c],
            b2[k][c],
        ),
{
    let n = a.len() as int;
    lemma_dsq_total_one_sample(a, b, b2, k, c, n, 0);
    lemma_dsq_total_one_sample(a, b, b2, k, c, n, 1);
    lemma_dsq_total_one_sample(a, b, b2, k, c, n, 2);
    lemma_dsq_total_one_sample(a, b, b2, k, c, n, 3);
}

/// The squared difference grows with the distance between the two values.
pub proof fn lemma_sq_diff_monotone(a: u64, b: u64, b2: u64)
    requires
        vstd::math::abs(a - b) <= vstd::math::abs(a - b2),
    ensures
        sq_diff(a, b) <= sq_diff(a, b2),
{
    let d = vstd::math::abs(a - b);
    let d2 = vstd::math::abs(a - b2);
    assert((a - b) * (a - b) == d * d) by (nonlinear_arith)
        requires
            d == a - b || d == -(a - b),
    ;
    assert((a - b2) * (a - b2) == d2 * d2) by (nonlinear_arith)
        requires
            d2 == a - b2 || d2 == -(a - b2),
    ;
    assert(d * d <= d2 * d2) by (nonlinear_arith)
        requires
            0 <= d <= d2,
    ;
}

/// Two images that differ in one channel of one texel only, by `d`, have the error
/// `d * d`, clamped.
pub proof fn lemma_mse_single_difference(a: Seq<[u64; 4]>, b: Seq<[u64; 4]>, k: int, c: int)
    requires
        differs_only_at(b, a, k, c),
        0 <= k < a.len(),
        0 <= c < 4,
    ensures
        mse(a, b) == clamp((a[k][c] - b[k][c]) * (a[k][c] - b[k][c])),
{
    lemma_mse_one_sample(a, a, b, k, c);
    lemma_mse_identical(a);
    lemma_dsq_total_nonneg(a, a, a.len() as int, 0);
    lemma_dsq_total_nonneg(a, a, a.len() as int, 1);
    lemma_dsq_total_nonneg(a, a, a.len() as int, 2);
    lemma_dsq_total_nonneg(a, a, a.len() as int, 3);
}

/// With all else the same, the error does not shrink when one channel of one texel of
/// the second image moves away from the first image's value.
pub proof fn lemma_mse_monotone(
    a: Seq<[u64; 4]>,
    b: Seq<[u64; 4]>,
    b2: Seq<[u64; 4]>,
    k: int,
    c: int,
)
    requires
        a.len() == b.len(),
        differs_only_at(b2, b, k, c),
        0 <= k < b.len(),
        0 <= c < 4,
        vstd::math::abs(a[k][c] - b[k][c]) <= vstd::math::abs(a[k][c] - b2[k][c]),
    ensures
        mse(a, b) <= mse(a, b2),
{
    lemma_mse_one_sample(a, b, b2, k, c);
    lemma_sq_diff_monotone(a[k][c], b[k][c], b2[k][c]);
}

/// Whether every texel of `a` is `texel`.
pub open spec fn is_flat(a: Seq<[u64; 4]>, texel: [u64; 4]) -> bool {
    forall|k: int| 0 <= k < a.len() ==> a[k] == texel
}

proof fn lemma_dsq_total_flat(
    a: Seq<[u64; 4]>,
    b: Seq<[u64; 4]>,
    ta: [u64; 4],
    tb: [u64; 4],
    n: int,
    c: int,
)
    requires
        a.len() == b.len(),
        is_flat(a, ta),
        is_flat(b, tb),
        0 <= n <= a.len(),
    ensures
        dsq_total(a, b, n, c) == n * sq_diff(ta[c], tb[c]),
    decreases n,
{
    if n > 0 {
        lemma_dsq_total_flat(a, b, ta, tb, n - 1, c);
        assert((n - 1) * sq_diff(ta[c], tb[c]) + sq_diff(ta[c], tb[c]) == n * sq_diff(
            ta[c],
            tb[c],
        )) by (nonlinear_arith);
    } else {
        assert(0 * sq_diff(ta[c], tb[c]) == 0);
    }
}

/// Between two images of one colour each, the sum of squared differences is the squared
/// distance of the two colours times the number of texels.
pub proof fn lemma_mse_flat(a: Seq<[u64; 4]>, b: Seq<[u64; 4]>, ta: [u64; 4], tb: [u64; 4])
    requires
        a.len() == b.len(),
        is_flat(a, ta),
        is_flat(b, tb),
    ensures
        mse_exact(a, b) == a.len() * (sq_diff(ta[0], tb[0]) + sq_diff(ta[1], tb[1]) + sq_diff(
            ta[2],
            tb[2],
        ) + sq_diff(ta[3], tb[3])),
{
    let n = a.len() as int;
    lemma_dsq_total_flat(a, b, ta, tb, n, 0);
    lemma_dsq_total_flat(a, b, ta, tb, n, 1);
    lemma_dsq_total_flat(a, b, ta, tb, n, 2);
    lemma_dsq_total_flat(a, b, ta, tb, n, 3);
    let s0 = sq_diff(ta[0], tb[0]);
    let s1 = sq_diff(ta[1], tb[1]);
    let s2 = sq_diff(ta[2], tb[2]);
    let s3 = sq_diff(ta[3], tb[3]);
    assert(n * s0 + n * s1 + n * s2 + n * s3 == n * (s0 + s1 + s2 + s3)) by (nonlinear_arith);
}

/// Why two images were not scored.
#[derive(Clone, Copy, Debug, PartialEq, Eq, Structural)]
pub enum ReductionError {
    /// An image does not have the size that the engine was made for.
    SizeMismatch,
    /// The size is not a whole number of tiles along each axis.
    NotTileable,
}

/// The scoring engine for images of one size: it squares the differences into a scratch
/// image of that size and folds the scratch image.
pub struct TexMse {
    dsq: TexDsq,
    fold: TexFold,
    tex_dsq: Raster,
}

impl TexMse {
    /// Width of the images that the engine scores.
    pub closed spec fn spec_width(&self) -> u32 {
        self.tex_dsq.spec_width()
    }

    /// Height of the images that the engine scores.
    pub closed spec fn spec_height(&self) -> u32 {
        self.tex_dsq.spec_height()
    }

    /// The sizes of the scratch images that the fold has made so far.
    pub closed spec fn scratch_shapes(&self) -> Seq<(u32, u32)> {
        self.fold.cache().shapes()
    }

    /// The scratch images of the fold are in order, and so is the engine's own.
    pub closed spec fn wf(&self) -> bool {
        &&& self.fold.wf()
        &&& self.tex_dsq.wf()
    }

    /// Whether the engine scores `img`: a well-formed image of the engine's size.
    pub open spec fn accepts(&self, img: &Raster) -> bool {
        &&& img.wf()
        &&& img.spec_width() == self.spec_width()
        &&& img.spec_height() == self.spec_height()
    }

    /// An engine for `width` by `height` images, or `None` where the machine cannot index
    /// that many texels.
    pub fn new(width: u32, height: u32) -> (r: Option<Self>)
        ensures
            r is None <==> width * height > usize::MAX,
            r matches Some(engine) ==> engine.wf() && engine.spec_width() == width
                && engine.spec_height() == height && engine.scratch_shapes().len() == 0,
    {
        match Raster::new(width, height) {
            Some(tex_dsq) => Some(TexMse { dsq: TexDsq::new(), fold: TexFold::new(), tex_dsq }),
            None => None,
        }
    }

    pub fn get_width(&self) -> (w: u32)
        ensures
            w == self.spec_width(),
    {
        self.tex_dsq.get_width()
    }

    pub fn get_height(&self) -> (h: u32)
        ensures
            h == self.spec_height(),
    {
        self.tex_dsq.get_height()
    }

    /// The error between two images of the engine's size, which must be a whole number
    /// of tiles along each axis.
    pub fn run(&mut self, src1: &Raster, src2: &Raster) -> (score: u64)
        requires
            old(self).wf(),
            old(self).accepts(src1),
            old(self).accepts(src2),
            tileable(old(self).spec_width(), old(self).spec_height()),
        ensures
            final(self).wf(),
            final(self).spec_width() == old(self).spec_width(),
            final(self).spec_height() == old(self).spec_height(),
            final(self).scratch_shapes() == shapes_after_run(
                old(self).scratch_shapes(),
                plan_of(old(self).spec_width(), old(self).spec_height()),
            ),
            score as int == mse(src1@, src2@),
    {
        self.dsq.run(src1, src2, &mut self.tex_dsq);
        // this would be divided by the number of texels; nothing here needs that
        let sums = self.fold.run(&self.tex_dsq);
        proof {
            let n = src1@.len() as int;
            assert forall|c: int| 0 <= c < 4 implies (#[trigger] sums[c]) as int == clamp(
                dsq_total(src1@, src2@, n, c),
            ) by {
                lemma_dsq_sums(self.tex_dsq@, src1@, src2@, n, c);
            }
            lemma_dsq_total_nonneg(src1@, src2@, n, 0);
            lemma_dsq_total_nonneg(src1@, src2@, n, 1);
            lemma_dsq_total_nonneg(src1@, src2@, n, 2);
            lemma_dsq_total_nonneg(src1@, src2@, n, 3);
        }
        // the four channels are summed, not averaged
        sums[0].saturating_add(sums[1]).saturating_add(sums[2]).saturating_add(sums[3])
    }

    /// Scores two images after checking them: an image of another size than the engine's
    /// is refused first, then a size that is not a whole number of tiles.
    pub fn try_run(&mut self, src1: &Raster, src2: &Raster) -> (r: Result<u64, ReductionError>)
        requires
            old(self).wf(),
            src1.wf(),
            src2.wf(),
        ensures
            final(self).wf(),
            final(self).spec_width() == old(self).spec_width(),
            final(self).spec_height() == old(self).spec_height(),
            r is Err ==> *final(self) == *old(self),
            match r {
                Ok(score) => {
                    &&& old(self).accepts(src1)
                    &&& old(self).accepts(src2)
                    &&& tileable(old(self).spec_width(), old(self).spec_height())
                    &&& score as int == mse(src1@, src2@)
                    &&& final(self).scratch_shapes() == shapes_after_run(
                        old(self).scratch_shapes(),
                        plan_of(old(self).spec_width(), old(self).spec_height()),
                    )
                },
                Err(ReductionError::SizeMismatch) => !(old(self).accepts(src1) && old(self).accepts(src2)),
                Err(ReductionError::NotTileable) => {
                    &&& old(self).accepts(src1)
                    &&& old(self).accepts(src2)
                    &&& !tileable(old(self).spec_width(), old(self).spec_height())
                },
            },
    {
        let width = self.tex_dsq.get_width();
        let height = self.tex_dsq.get_height();
        if src1.get_width() != width || src1.get_height() != height || src2.get_width() != width
            || src2.get_height() != height {
            return Err(ReductionError::SizeMismatch);
        }
        if fold_plan(width, height).is_none() {
            return Err(ReductionError::NotTileable);
        }
        Ok(self.run(src1, src2))
    }
}

} // verus!
