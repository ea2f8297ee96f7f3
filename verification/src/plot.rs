//! Candlestick charts with one candle per pair of consecutive points.

use vstd::prelude::*;
use crate::candles::{Candle, CandlesLayout};

verus! {

/// The candles of a series of `len` points: candle `i`, numbered `i + 1`,
/// opens at point `i` and closes at point `i + 1`.
pub open spec fn is_pair_candles(c: Seq<Candle>, len: int) -> bool {
    &&& c.len() == if len == 0 { 0 } else { len - 1 }
    &&& forall|i: int| 0 <= i < c.len() ==> #[trigger] c[i] == (Candle { x: (i + 1) as usize, first: i as usize, last: (i + 1) as usize })
}

/// The candles of a series of `len` points, one per pair of consecutive
/// points (see `is_pair_candles`).
pub fn parse_data(len: usize) -> (c: Vec<Candle>)
    ensures
        is_pair_candles(c@, len as int),
{
    let mut c: Vec<Candle> = Vec::new();
    if len == 0 {
        return c;
    }
    let mut i: usize = 0;
    while i + 1 < len
        invariant
            i < len,
            c@.len() == i,
            forall|k: int| 0 <= k < i ==> #[trigger] c@[k] == (Candle { x: (k + 1) as usize, first: k as usize, last: (k + 1) as usize }),
        decreases len - i,
    {
        c.push(Candle { x: i + 1, first: i, last: i + 1 });
        i = i + 1;
    }
    c
}

/// The layout of the chart of a series of `len` points: its candles, and an
/// x axis from 0 to `len`, one unit wider than the candles on either side.
pub fn run_layout(len: usize) -> (l: CandlesLayout)
    requires
        len >= 2,
    ensures
        is_pair_candles(l.candles@, len as int),
        l.x_start == 0,
        l.x_end == len,
{
    let candles = parse_data(len);
    let n = candles.len();
    let x_start = candles[0].x - 1;
    let x_end = candles[n - 1].x + 1;
    CandlesLayout { candles, x_start, x_end }
}

} // verus!
