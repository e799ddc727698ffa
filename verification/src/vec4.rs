//! Four-channel values, as a texel holds them and as sums of texels are kept.
use vstd::prelude::*;

verus! {

/// The largest value one channel can hold; sums stop growing there.
pub const CHANNEL_MAX: u64 = 0xffff_ffff_ffff_ffff;

/// A mathematical sum as a channel holds it: itself while it fits, else the largest channel value.
pub open spec fn clamp(x: int) -> int {
    if x > CHANNEL_MAX as int {
        CHANNEL_MAX as int
    } else {
        x
    }
}

/// Adds two four-channel values channel by channel, each channel saturating.
pub fn vec4_add(a: [u64; 4], b: [u64; 4]) -> (r: [u64; 4])
    ensures
        forall|c: int| 0 <= c < 4 ==> r[c] as int == clamp(a[c] + b[c]),
{
    [
        a[0].saturating_add(b[0]),
        a[1].saturating_add(b[1]),
        a[2].saturating_add(b[2]),
        a[3].saturating_add(b[3]),
    ]
}

/// Divides each channel by `b`, rounding down.
pub fn vec4_div(a: [u64; 4], b: u64) -> (r: [u64; 4])
    requires
        b != 0,
    ensures
        forall|c: int| 0 <= c < 4 ==> r[c] as int == a[c] as int / b as int,
{
    [a[0] / b, a[1] / b, a[2] / b, a[3] / b]
}

} // verus!
