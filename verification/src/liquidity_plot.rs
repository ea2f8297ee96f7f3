//! Liquidity charts: a row of bar charts, one per market, the bars of a
//! market coloured along the "sinebow" scheme and its x axis starting at 0.

use vstd::prelude::*;
use crate::bar_chart::{bars, is_bars, Bar};
use crate::helpers::{series_check, validate_series, Palette, PlotError};

verus! {

/// The bars of a market of `len` points: bar `k` stands at `k`.
pub fn subplot_bars(len: usize) -> (b: Vec<Bar>)
    ensures
        is_bars(b@, len as int, len as int, 0, Palette::Sinebow),
{
    bars(len, len, 0, Palette::Sinebow)
}

/// The bars of each market (given by the lengths of their series), or the
/// error that `validate_series` finds. Each chart's x axis runs from 0 to
/// the length of its series.
pub fn plot_layout(lens: &Vec<usize>, n_captions: usize) -> (r: Result<Vec<Vec<Bar>>, PlotError>)
    ensures
        r is Ok <==> series_check(lens@, n_captions) is Ok,
        r matches Err(e) ==> series_check(lens@, n_captions) == Err::<(), PlotError>(e),
        r matches Ok(bs) ==> {
            &&& bs@.len() == lens@.len()
            &&& forall|i: int| 0 <= i < bs@.len() ==> is_bars((#[trigger] bs@[i])@, lens@[i] as int, lens@[i] as int, 0, Palette::Sinebow)
        },
{
    validate_series(lens, n_captions)?;
    let mut bs: Vec<Vec<Bar>> = Vec::new();
    let mut i: usize = 0;
    while i < lens.len()
        invariant
            i <= lens@.len(),
            bs@.len() == i,
            forall|k: int| 0 <= k < i ==> is_bars((#[trigger] bs@[k])@, lens@[k] as int, lens@[k] as int, 0, Palette::Sinebow),
        decreases lens@.len() - i,
    {
        bs.push(subplot_bars(lens[i]));
        i = i + 1;
    }
    Ok(bs)
}

/// The x axis of the chart of a market of `len` points: from 0 to `len`,
/// one unit per bar.
pub fn x_range(len: usize) -> (r: (usize, usize))
    ensures
        r == (0usize, len),
{
    (0, len)
}

} // verus!
