//! Line charts of one or several series, the points of a series at
//! `0, 1, 2, ...` on the x axis.

use vstd::prelude::*;
use crate::colors::{sample_colors, ColorRequest, SampledColor};
use crate::helpers::{empty_or_contains_empty, is_empty_or_contains_empty, max_len, Palette, PlotError};

verus! {

/// The end of the x axis of the chart of a series of `len` points (it
/// starts at 0), or `PlotError::EmptySeries` when the series is empty.
pub fn single_series_x_end(len: usize) -> (r: Result<usize, PlotError>)
    ensures
        len == 0 ==> r == Err::<usize, PlotError>(PlotError::EmptySeries),
        len > 0 ==> r == Ok::<usize, PlotError>((len - 1) as usize),
{
    if len == 0 {
        return Err(PlotError::EmptySeries);
    }
    Ok(len - 1)
}

/// What the chart of several series shows: an x axis from 0 to `x_end`
/// and one line per series in its colour.
pub struct MultipleSeriesLayout {
    pub x_end: usize,
    pub colors: Vec<SampledColor>,
}

/// The layout of the chart of several series (given by their lengths): the
/// x axis reaches the last point of the longest series, and series `i` of
/// `n` takes the colour sampled at position `i / n` of the "sinebow" scheme;
/// or
/// `PlotError::EmptyOrContainsEmpty` when there is no series or an empty one.
pub fn multiple_series_layout(lens: &Vec<usize>) -> (r: Result<MultipleSeriesLayout, PlotError>)
    ensures
        empty_or_contains_empty(lens@) <==> r == Err::<MultipleSeriesLayout, PlotError>(PlotError::EmptyOrContainsEmpty),
        !empty_or_contains_empty(lens@) <==> r is Ok,
        r matches Ok(l) ==> {
            &&& (exists|i: int| 0 <= i < lens@.len() && lens@[i] == l.x_end + 1)
            &&& (forall|i: int| 0 <= i < lens@.len() ==> lens@[i] <= l.x_end + 1)
            &&& l.colors@.len() == lens@.len()
            &&& forall|i: int| 0 <= i < lens@.len() ==> (#[trigger] l.colors@[i]).sampled_at()
                == (ColorRequest { palette: Palette::Sinebow, i: i as usize, n: lens@.len() as usize })
        },
{
    if is_empty_or_contains_empty(lens) {
        return Err(PlotError::EmptyOrContainsEmpty);
    }
    let m = max_len(lens);
    assert(lens@[0] <= m);
    let colors = sample_colors(lens.len(), lens.len(), Palette::Sinebow);
    Ok(MultipleSeriesLayout { x_end: m - 1, colors })
}

} // verus!
