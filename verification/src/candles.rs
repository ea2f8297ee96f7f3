//! Candlestick charts with candles numbered 1, 2, ... on the x axis, over a
//! series padded with as many copies of its last point as the remainder of
//! its length by the candle size.

use vstd::prelude::*;
use crate::candlestick_chart::candle_last;
use crate::helpers::PlotError;

verus! {

/// A candle: its number on the x axis and the points `first..=last` of the
/// series it spans.
#[derive(Clone, Copy, Debug, PartialEq, Eq, Structural)]
pub struct Candle {
    pub x: usize,
    pub first: usize,
    pub last: usize,
}

/// The candles of a series of `len` points cut every `candle_size` points:
/// a series shorter than a candle gives one candle of all its points;
/// otherwise, with the series padded by `len % candle_size` copies of its
/// last point, candle `j` (numbered `j + 1`) spans the points
/// `j * candle_size ..= j * candle_size + candle_size` of the padded series,
/// for every `j` such that that span ends before the padded series does.
pub open spec fn is_candles(c: Seq<Candle>, len: int, candle_size: int) -> bool {
    if len < candle_size {
        c == seq![Candle { x: 1, first: 0, last: (len - 1) as usize }]
    } else {
        let padded = len + len % candle_size;
        &&& (c.len() == 0 || c.len() * candle_size < padded)
        &&& (c.len() + 1) * candle_size >= padded
        &&& forall|j: int| 0 <= j < c.len() ==> {
            &&& (#[trigger] c[j]).first == j * candle_size
            &&& c[j].last == candle_last(j * candle_size, candle_size, len)
            &&& c[j].x == j + 1
        }
    }
}

/// The candles of a series of `len` points, `candle_size` points each (see
/// `is_candles`). The prices of candle `c` are those of the points
/// `c.first..=c.last`.
pub fn parse_data(len: usize, candle_size: usize) -> (c: Vec<Candle>)
    requires
        1 <= len <= isize::MAX,
        candle_size >= 1,
    ensures
        is_candles(c@, len as int, candle_size as int),
{
    let mut c: Vec<Candle> = Vec::new();
    if len < candle_size {
        c.push(Candle { x: 1, first: 0, last: len - 1 });
        return c;
    }
    let rem = len % candle_size;
    let ghost padded = len + rem;
    let mut first: usize = 0;
    let ghost mut j: int = 0;
    while len - first > candle_size || (candle_size - (len - first) < rem)
        invariant
            0 <= j,
            c@.len() == j,
            first == j * candle_size,
            first < padded,
            len >= candle_size >= 1,
            len <= isize::MAX,
            rem == len % candle_size,
            padded == len + rem,
            first <= len,
            j == 0 || j * candle_size < padded,
            forall|k: int| 0 <= k < j ==> {
                &&& (#[trigger] c@[k]).first == k * candle_size
                &&& c@[k].last == candle_last(k * candle_size, candle_size as int, len as int)
                &&& c@[k].x == k + 1
            },
        decreases len - first,
    {
        assert(rem < candle_size) by {
            vstd::arithmetic::div_mod::lemma_mod_bound(len as int, candle_size as int);
        };
        let last = if len - 1 - first > candle_size { first + candle_size } else { len - 1 };
        c.push(Candle { x: first / candle_size + 1, first, last });
        proof {
            vstd::arithmetic::div_mod::lemma_div_multiples_vanish(j, candle_size as int);
            assert(j * candle_size == candle_size * j) by (nonlinear_arith);
            assert((j + 1) * candle_size == j * candle_size + candle_size) by (nonlinear_arith);
            j = j + 1;
        }
        first = first + candle_size;
        if first > len {
            proof {
                assert((j + 1) * candle_size == j * candle_size + candle_size) by (nonlinear_arith);
            }
            return c;
        }
    }
    proof {
        assert((j + 1) * candle_size == j * candle_size + candle_size) by (nonlinear_arith);
    }
    c
}

/// What the chart shows: its candles, and the range of the x axis, which
/// leaves one unit free on either side.
pub struct CandlesLayout {
    pub candles: Vec<Candle>,
    pub x_start: usize,
    pub x_end: usize,
}

/// The layout of the chart of a series of `len` points, or
/// `PlotError::EmptySeries` when the series is empty.
pub fn plot_layout(len: usize, candle_size: usize) -> (r: Result<CandlesLayout, PlotError>)
    requires
        len <= isize::MAX,
        len > 0 ==> candle_size >= 1 && len != candle_size,
    ensures
        len == 0 <==> r == Err::<CandlesLayout, PlotError>(PlotError::EmptySeries),
        len > 0 <==> r is Ok,
        r matches Ok(l) ==> {
            &&& is_candles(l.candles@, len as int, candle_size as int)
            &&& l.candles@.len() > 0
            &&& l.x_start == l.candles@[0].x - 1
            &&& l.x_end == l.candles@[l.candles@.len() - 1].x + 1
        },
{
    if len == 0 {
        return Err(PlotError::EmptySeries);
    }
    let candles = parse_data(len, candle_size);
    proof {
        if len >= candle_size {
            assert(candles@.len() > 0) by {
                vstd::arithmetic::div_mod::lemma_mod_bound(len as int, candle_size as int);
                if candles@.len() == 0 {
                    assert((candles@.len() + 1) * candle_size >= len + len % candle_size);
                    let m = candles@.len();
                    assert((m + 1) * candle_size == candle_size) by (nonlinear_arith) requires m == 0;
                }
            };
            assert(candles@[0].first == 0 * candle_size);
            let n = candles@.len() as int;
            assert(candles@[n - 1].x == n);
            assert(n * candle_size < len + len % candle_size);
            assert(n <= n * candle_size) by (nonlinear_arith) requires n >= 0, candle_size >= 1;
        }
    }
    let n = candles.len();
    let x_start = candles[0].x - 1;
    let x_end = candles[n - 1].x + 1;
    Ok(CandlesLayout { candles, x_start, x_end })
}

} // verus!
