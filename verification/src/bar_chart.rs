//! Bar charts of several series side by side, one bar per point, the bars
//! of a series coloured along the "cool" scheme.

use vstd::prelude::*;
use crate::colors::{sample_colors, ColorRequest, SampledColor};
use crate::helpers::{series_check, validate_series, Palette, PlotError};

verus! {

/// A bar: its left edge on the x axis (it is one unit wide) and its colour.
#[derive(Clone, Copy, Debug, PartialEq, Eq, Structural)]
pub struct Bar {
    pub x: usize,
    pub color: SampledColor,
}

/// The first `shown` bars of a series of `n` points whose first point
/// stands at `x_start`: bar `k` stands at `x_start + k`, in the colour
/// sampled at position `k / n` of `palette`.
pub open spec fn is_bars(b: Seq<Bar>, shown: int, n: int, x_start: int, palette: Palette) -> bool {
    &&& b.len() == shown
    &&& forall|k: int| 0 <= k < shown ==> {
        &&& (#[trigger] b[k]).x == x_start + k
        &&& b[k].color.sampled_at() == (ColorRequest { palette, i: k as usize, n: n as usize })
    }
}

/// Bars in the given colours, side by side from `x_start` on: bar `k` stands
/// at `x_start + k` in `colors[k]`.
pub fn place_bars(x_start: usize, colors: &Vec<SampledColor>) -> (b: Vec<Bar>)
    requires
        colors@.len() == 0 || x_start + colors@.len() - 1 <= usize::MAX,
    ensures
        b@.len() == colors@.len(),
        forall|k: int| 0 <= k < b@.len() ==> #[trigger] b@[k] == (Bar { x: (x_start + k) as usize, color: colors@[k] }),
{
    let mut b: Vec<Bar> = Vec::new();
    let mut k: usize = 0;
    while k < colors.len()
        invariant
            k <= colors@.len(),
            colors@.len() == 0 || x_start + colors@.len() - 1 <= usize::MAX,
            b@.len() == k,
            forall|j: int| 0 <= j < k ==> #[trigger] b@[j] == (Bar { x: (x_start + j) as usize, color: colors@[j] }),
        decreases colors@.len() - k,
    {
        b.push(Bar { x: k + x_start, color: colors[k] });
        k = k + 1;
    }
    b
}

/// The first `shown` bars of a series of `n` points whose first point stands
/// at `x_start`: bar `k` stands at `x_start + k`, in the colour sampled at
/// position `k / n` of `palette`.
pub fn bars(shown: usize, n: usize, x_start: usize, palette: Palette) -> (b: Vec<Bar>)
    requires
        shown <= n,
        shown == 0 || x_start + shown - 1 <= usize::MAX,
    ensures
        is_bars(b@, shown as int, n as int, x_start as int, palette),
{
    let colors = sample_colors(shown, n, palette);
    place_bars(x_start, &colors)
}

/// What one chart of the row shows: the x axis from `x_start` to `x_end`,
/// with at most `x_labels` labels, and the bars.
pub struct SubplotLayout {
    pub x_start: usize,
    pub x_end: usize,
    pub x_labels: usize,
    pub bars: Vec<Bar>,
}

/// The number of labels on the x axis: one per point, at most
/// `x_max_labels` (11 when none is given).
pub open spec fn label_count(len: int, x_max_labels: Option<usize>) -> int {
    let max = match x_max_labels {
        Some(m) => m as int,
        None => 11,
    };
    if len < max { len } else { max }
}

/// The layout of the chart of a series of `len` points whose first point
/// stands at `x_start_index`: the x axis spans the bars exactly.
pub fn subplot_layout(len: usize, x_start_index: usize, x_max_labels: Option<usize>) -> (l: SubplotLayout)
    requires
        x_start_index + len <= usize::MAX,
    ensures
        l.x_start == x_start_index,
        l.x_end == x_start_index + len,
        l.x_labels == label_count(len as int, x_max_labels),
        is_bars(l.bars@, len as int, len as int, x_start_index as int, Palette::Cool),
{
    let max_labels = match x_max_labels {
        None => 11,
        Some(m) => m,
    };
    let x_labels = if len < max_labels { len } else { max_labels };
    SubplotLayout {
        x_start: x_start_index,
        x_end: x_start_index + len,
        x_labels,
        bars: bars(len, len, x_start_index, Palette::Cool),
    }
}

/// Whether every series, put at `x_start_index`, ends within `usize`.
pub open spec fn all_fit(lens: Seq<usize>, x_start_index: int) -> bool {
    forall|i: int| 0 <= i < lens.len() ==> x_start_index + #[trigger] lens[i] <= usize::MAX
}

/// The layout of a row of bar charts, one per series (given by their
/// lengths), each with its caption, their points numbered from
/// `custom_x_start_index` (0 when none is given); or the error that
/// `validate_series` finds.
pub fn plot_layout(
    lens: &Vec<usize>,
    n_captions: usize,
    custom_x_start_index: Option<usize>,
    x_max_labels: Option<usize>,
) -> (r: Result<Vec<SubplotLayout>, PlotError>)
    requires
        series_check(lens@, n_captions) is Ok ==> all_fit(lens@, match custom_x_start_index { Some(i) => i as int, None => 0 }),
    ensures
        r is Ok <==> series_check(lens@, n_captions) is Ok,
        r matches Err(e) ==> series_check(lens@, n_captions) == Err::<(), PlotError>(e),
        r matches Ok(ls) ==> {
            let x0 = match custom_x_start_index { Some(i) => i as int, None => 0 };
            &&& ls@.len() == lens@.len()
            &&& forall|i: int| 0 <= i < ls@.len() ==> {
                &&& (#[trigger] ls@[i]).x_start == x0
                &&& ls@[i].x_end == x0 + lens@[i]
                &&& ls@[i].x_labels == label_count(lens@[i] as int, x_max_labels)
                &&& is_bars(ls@[i].bars@, lens@[i] as int, lens@[i] as int, x0, Palette::Cool)
            }
        },
{
    validate_series(lens, n_captions)?;
    let x_start_index = match custom_x_start_index {
        None => 0,
        Some(index) => index,
    };
    let mut ls: Vec<SubplotLayout> = Vec::new();
    let mut i: usize = 0;
    while i < lens.len()
        invariant
            i <= lens@.len(),
            ls@.len() == i,
            all_fit(lens@, x_start_index as int),
            forall|k: int| 0 <= k < i ==> {
                &&& (#[trigger] ls@[k]).x_start == x_start_index
                &&& ls@[k].x_end == x_start_index + lens@[k]
                &&& ls@[k].x_labels == label_count(lens@[k] as int, x_max_labels)
                &&& is_bars(ls@[k].bars@, lens@[k] as int, lens@[k] as int, x_start_index as int, Palette::Cool)
            },
        decreases lens@.len() - i,
    {
        ls.push(subplot_layout(lens[i], x_start_index, x_max_labels));
        i = i + 1;
    }
    Ok(ls)
}

} // verus!
