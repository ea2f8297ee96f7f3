//! The colours that colorous samples, each kept with the point of the
//! scheme it was asked for.

use vstd::prelude::*;
use super::ColorRequest;
use crate::helpers::{Palette, Rgb};

verus! {

/// A colour together with the point of the scheme colorous was asked for
/// when it gave that colour. Only `eval_rational` makes one.
#[derive(Clone, Copy, Debug, PartialEq, Eq, Structural)]
pub struct SampledColor {
    request: ColorRequest,
    rgb: Rgb,
}

impl SampledColor {
    /// The point of the scheme colorous was asked for when it gave the
    /// colour.
    pub closed spec fn sampled_at(self) -> ColorRequest {
        self.request
    }

    /// The point of the scheme colorous was asked for when it gave the
    /// colour.
    pub fn request(&self) -> (q: ColorRequest)
        ensures
            q == self.sampled_at(),
    {
        self.request
    }

    /// The colour.
    pub fn rgb(&self) -> Rgb {
        self.rgb
    }
}

/// Samples the colour scheme of `q` at position `q.i / q.n`, as
/// `colorous::Gradient::eval_rational` does (it panics for `n == 0`, and
/// samples `n - 1` for any `i >= n`), and keeps the colour with `q`.
///
/// Trusted. It claims only that the colour comes back kept with the very
/// point it was asked for. Nothing is claimed of the colour itself:
/// colorous computes it in `f32` with the platform's `sin` and `cos`, whose
/// precision std leaves unspecified, so it is not even claimed to be the
/// same for the same point.
#[verifier::external_body]
pub(crate) fn eval_rational(q: ColorRequest) -> (c: SampledColor)
    requires
        q.n > 0,
    ensures
        c.sampled_at() == q,
{
    let gradient = match q.palette {
        Palette::Cool => colorous::COOL,
        Palette::Sinebow => colorous::SINEBOW,
    };
    let c = gradient.eval_rational(q.i, q.n);
    SampledColor { request: q, rgb: Rgb { r: c.r, g: c.g, b: c.b } }
}

} // verus!
