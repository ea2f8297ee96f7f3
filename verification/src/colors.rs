//! Colours sampled from the continuous colour schemes.
//!
//! Which scheme and which point of it colours a bar or a line is decided
//! here and stated exactly; the colour itself is computed by colorous.

pub mod gradient;

use vstd::prelude::*;
use crate::helpers::Palette;
pub use gradient::SampledColor;

verus! {

/// A point to sample: position `i / n` of the scheme `palette`.
#[derive(Clone, Copy, Debug, PartialEq, Eq, Structural)]
pub struct ColorRequest {
    pub palette: Palette,
    pub i: usize,
    pub n: usize,
}

/// The point at position `i / n` of `palette`.
pub fn sample_request(palette: Palette, i: usize, n: usize) -> (q: ColorRequest)
    ensures
        q == (ColorRequest { palette, i, n }),
{
    ColorRequest { palette, i, n }
}

/// The colour of the point `q`, sampled from its scheme.
pub fn sample(q: ColorRequest) -> (c: SampledColor)
    requires
        q.n > 0,
    ensures
        c.sampled_at() == q,
{
    gradient::eval_rational(q)
}

/// The colours of the first `shown` of `n` things: thing `k` gets the
/// colour sampled at position `k / n` of `palette`.
pub fn sample_colors(shown: usize, n: usize, palette: Palette) -> (colors: Vec<SampledColor>)
    requires
        shown <= n,
    ensures
        colors@.len() == shown,
        forall|k: int| 0 <= k < shown ==> (#[trigger] colors@[k]).sampled_at() == (ColorRequest { palette, i: k as usize, n }),
{
    let mut colors: Vec<SampledColor> = Vec::new();
    let mut k: usize = 0;
    while k < shown
        invariant
            k <= shown <= n,
            colors@.len() == k,
            forall|j: int| 0 <= j < k ==> (#[trigger] colors@[j]).sampled_at() == (ColorRequest { palette, i: j as usize, n }),
        decreases shown - k,
    {
        colors.push(sample(sample_request(palette, k, n)));
        k = k + 1;
    }
    colors
}

} // verus!
