//! Line charts of one or several series, written to a file without first
//! checking for empty series: an empty series is a precondition violation
//! here, where `base_chart` reports it as an error.

use vstd::prelude::*;
use crate::colors::{sample_colors, ColorRequest};
use crate::base_chart::MultipleSeriesLayout;
use crate::helpers::{max_len, Palette};

verus! {

/// The layout of the chart of several series (given by their lengths): the
/// x axis reaches the last point of the longest series, and series `i` of
/// `n` takes the colour sampled at position `i / n` of the "sinebow" scheme.
pub fn multiple_series_layout(lens: &Vec<usize>) -> (l: MultipleSeriesLayout)
    requires
        exists|i: int| 0 <= i < lens@.len() && lens@[i] > 0,
    ensures
        exists|i: int| 0 <= i < lens@.len() && lens@[i] == l.x_end + 1,
        forall|i: int| 0 <= i < lens@.len() ==> lens@[i] <= l.x_end + 1,
        l.colors@.len() == lens@.len(),
        forall|i: int| 0 <= i < lens@.len() ==> (#[trigger] l.colors@[i]).sampled_at()
            == (ColorRequest { palette: Palette::Sinebow, i: i as usize, n: lens@.len() as usize }),
{
    let m = max_len(lens);
    let colors = sample_colors(lens.len(), lens.len(), Palette::Sinebow);
    MultipleSeriesLayout { x_end: m - 1, colors }
}

/// The end of the x axis of the chart of a series of `len` points (it
/// starts at 0): its last point.
pub fn single_series_x_end(len: usize) -> (x_end: usize)
    requires
        len >= 1,
    ensures
        x_end == len - 1,
{
    len - 1
}

} // verus!
