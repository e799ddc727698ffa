//! The squared difference of two images, texel by texel and channel by channel.
use vstd::prelude::*;
use crate::raster::Raster;
use crate::sums::flat_sum;
use crate::vec4::{clamp, CHANNEL_MAX};

verus! {

/// The square of the difference of two channel values, as a channel holds it.
pub open spec fn sq_diff(a: u64, b: u64) -> int {
    clamp((a - b) * (a - b))
}

/// Sum over the first `n` texels of the squared differences in channel `c`.
pub open spec fn dsq_total(a: Seq<[u64; 4]>, b: Seq<[u64; 4]>, n: int, c: int) -> int
    decreases n,
{
    if n <= 0 {
        0
    } else {
        dsq_total(a, b, n - 1, c) + sq_diff(a[n - 1][c], b[n - 1][c])
    }
}

/// Whether `d` holds, in every channel of every texel, the squared difference of `a` and `b`.
pub open spec fn is_dsq_of(d: Seq<[u64; 4]>, a: Seq<[u64; 4]>, b: Seq<[u64; 4]>) -> bool {
    &&& d.len() == a.len()
    &&& d.len() == b.len()
    &&& forall|k: int, c: int|
        0 <= k < d.len() && 0 <= c < 4 ==> (#[trigger] d[k][c]) as int == sq_diff(a[k][c], b[k][c])
}

/// The channel sums of a squared-difference image are the sums of the squared differences.
pub proof fn lemma_dsq_sums(d: Seq<[u64; 4]>, a: Seq<[u64; 4]>, b: Seq<[u64; 4]>, n: int, c: int)
    requires
        is_dsq_of(d, a, b),
        0 <= n <= d.len(),
        0 <= c < 4,
    ensures
        flat_sum(d, n, c) == dsq_total(a, b, n, c),
    decreases n,
{
    if n > 0 {
        lemma_dsq_sums(d, a, b, n - 1, c);
        assert(d[n - 1][c] as int == sq_diff(a[n - 1][c], b[n - 1][c]));
    }
}

/// Squares the difference of two channel values; a square too large for a channel gives
/// the largest value.
pub fn channel_sq_diff(a: u64, b: u64) -> (r: u64)
    ensures
        r as int == sq_diff(a, b),
{
    let d: u64 = if a >= b {
        a - b
    } else {
        b - a
    };
    assert(d * d <= 0xffff_ffff_ffff_ffff * 0xffff_ffff_ffff_ffff) by (nonlinear_arith)
        requires
            0 <= d <= 0xffff_ffff_ffff_ffff,
    ;
    assert(d * d == (a - b) * (a - b)) by (nonlinear_arith)
        requires
            d == a - b || d == b - a,
    ;
    let sq: u128 = (d as u128) * (d as u128);
    if sq > CHANNEL_MAX as u128 {
        CHANNEL_MAX
    } else {
        sq as u64
    }
}

/// The pass that squares differences.
pub struct TexDsq {}

impl TexDsq {
    pub fn new() -> (dsq: Self) {
        TexDsq {  }
    }

    /// Writes into `dest` the squared difference of `src1` and `src2`, three images of
    /// one size.
    pub fn run(&self, src1: &Raster, src2: &Raster, dest: &mut Raster)
        requires
            src1.wf(),
            src2.wf(),
            old(dest).wf(),
            src1.same_size(src2),
            old(dest).same_size(src1),
        ensures
            final(dest).wf(),
            final(dest).same_size(old(dest)),
            is_dsq_of(final(dest)@, src1@, src2@),
    {
        let n: usize = dest.len();
        let mut k: usize = 0;
        while k < n
            invariant
                n == dest@.len(),
                n == src1@.len(),
                n == src2@.len(),
                dest.same_size(old(dest)),
                k <= n,
                forall|i: int, c: int|
                    0 <= i < k && 0 <= c < 4 ==> (#[trigger] dest@[i][c]) as int == sq_diff(
                        src1@[i][c],
                        src2@[i][c],
                    ),
            decreases n - k,
        {
            let a = src1.texel_at(k);
            let b = src2.texel_at(k);
            let texel = [
                channel_sq_diff(a[0], b[0]),
                channel_sq_diff(a[1], b[1]),
                channel_sq_diff(a[2], b[2]),
                channel_sq_diff(a[3], b[3]),
            ];
            dest.set_at(k, texel);
            k += 1;
        }
    }
}

} // verus!
