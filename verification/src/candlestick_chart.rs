//! Candlestick charts: a series cut into candles of a fixed number of
//! points, each drawn at its own position on the x axis.
//!
//! A candle is described here by the points it spans; its open, high, low
//! and close prices are those of the first point, the highest and lowest
//! points and the last point of that span.

use vstd::prelude::*;
use vstd::arithmetic::div_mod::{lemma_div_is_ordered, lemma_div_multiples_vanish};
use vstd::arithmetic::mul::lemma_mul_inequality;
use crate::helpers::PlotError;

verus! {

/// A candle: its position on the x axis and the points `first..=last` of
/// the series it spans.
#[derive(Clone, Copy, Debug, PartialEq, Eq, Structural)]
pub struct Candle {
    pub x: isize,
    pub first: usize,
    pub last: usize,
}

/// The last point of a candle that starts at point `first` and spans
/// `candle_size + 1` points, in a series of `len` points (the series is
/// taken to repeat its last point beyond its end).
pub open spec fn candle_last(first: int, candle_size: int, len: int) -> int {
    if first + candle_size < len - 1 { first + candle_size } else { len - 1 }
}

/// The first point of the last candle.
pub open spec fn last_candle_first(len: int, candle_size: int) -> int {
    ((len - 1) / candle_size) * candle_size
}

/// The candles of a series of `len` points, `candle_size` points apart: candle
/// `j` spans the points `j * candle_size ..= j * candle_size + candle_size`
/// (its close is the next candle's open) cut at the end of the series, and
/// stands at `x = start + j * candle_size`; there are as many candles as it
/// takes to reach the last point.
pub open spec fn is_candlestick_spans(c: Seq<Candle>, len: int, candle_size: int, start: int) -> bool {
    &&& c.len() >= 1
    &&& (c.len() - 1) * candle_size < len <= c.len() * candle_size
    &&& forall|j: int| 0 <= j < c.len() ==> {
        &&& (#[trigger] c[j]).first == j * candle_size
        &&& c[j].last == candle_last(j * candle_size, candle_size, len)
        &&& c[j].x == (start + j * candle_size) as isize
    }
}

/// A multiple of `candle_size` within the series is at most the first
/// point of the last candle.
proof fn lemma_first_le_last_first(j: int, candle_size: int, len: int)
    requires
        0 <= j,
        0 < candle_size,
        j * candle_size <= len - 1,
    ensures
        j * candle_size <= last_candle_first(len, candle_size),
{
    lemma_div_is_ordered(j * candle_size, len - 1, candle_size);
    assert(j * candle_size == candle_size * j) by (nonlinear_arith);
    lemma_div_multiples_vanish(j, candle_size);
    lemma_mul_inequality(j, (len - 1) / candle_size, candle_size);
}

/// The spans of the candles of a series of `len` points, cut every
/// `candle_size` points, the first standing at `x = start`.
pub fn candle_spans(len: usize, candle_size: usize, start: usize) -> (c: Vec<Candle>)
    requires
        len >= 1,
        candle_size >= 1,
        start + last_candle_first(len as int, candle_size as int) <= usize::MAX,
    ensures
        is_candlestick_spans(c@, len as int, candle_size as int, start as int),
{
    let mut c: Vec<Candle> = Vec::new();
    let mut first: usize = 0;
    let ghost mut j: int = 0;
    loop
        invariant_except_break
            0 <= j,
            c@.len() == j,
            first == j * candle_size,
            first < len,
            len >= 1,
            candle_size >= 1,
            start + last_candle_first(len as int, candle_size as int) <= usize::MAX,
            forall|k: int| 0 <= k < j ==> {
                &&& (#[trigger] c@[k]).first == k * candle_size
                &&& c@[k].last == candle_last(k * candle_size, candle_size as int, len as int)
                &&& c@[k].x == (start + k * candle_size) as isize
            },
        ensures
            is_candlestick_spans(c@, len as int, candle_size as int, start as int),
        decreases len - first,
    {
        proof { lemma_first_le_last_first(j, candle_size as int, len as int); }
        let last = if len - 1 - first > candle_size { first + candle_size } else { len - 1 };
        c.push(Candle { x: (start + first) as isize, first, last });
        if len - first > candle_size {
            proof {
                assert((j + 1) * candle_size == j * candle_size + candle_size) by (nonlinear_arith);
                j = j + 1;
            }
            first = first + candle_size;
        } else {
            proof {
                assert((j + 1) * candle_size == j * candle_size + candle_size) by (nonlinear_arith);
                assert forall|k: int| 0 <= k < c@.len() implies {
                    &&& (#[trigger] c@[k]).first == k * candle_size
                    &&& c@[k].last == candle_last(k * candle_size, candle_size as int, len as int)
                    &&& c@[k].x == (start + k * candle_size) as isize
                } by {
                    if k < j {
                    } else {
                        assert(k == j);
                    }
                };
            }
            break;
        }
    }
    c
}

/// Where the first candle stands when no position is given.
pub open spec fn candle_start(custom_candle_start_index: Option<usize>) -> int {
    match custom_candle_start_index {
        Some(i) => i as int,
        None => 1,
    }
}

/// The candles of a series of `len` points, `candle_size` points each, the
/// first standing at `custom_candle_start_index` (1 when none is given) and
/// the next ones `candle_size` further each (see `is_candlestick_spans`).
/// The prices of candle `c` are those of the points `c.first..=c.last`.
pub fn parse_data(len: usize, candle_size: usize, custom_candle_start_index: Option<usize>) -> (c: Vec<Candle>)
    requires
        len >= 1,
        candle_size >= 1,
        candle_start(custom_candle_start_index) + last_candle_first(len as int, candle_size as int) <= usize::MAX,
    ensures
        is_candlestick_spans(c@, len as int, candle_size as int, candle_start(custom_candle_start_index)),
{
    let start = match custom_candle_start_index {
        Some(i) => i,
        None => 1,
    };
    candle_spans(len, candle_size, start)
}

/// What a candlestick chart of a series shows: its candles, and the range
/// of the x axis, which leaves `candle_size` free on either side.
pub struct CandlestickLayout {
    pub candles: Vec<Candle>,
    pub x_start: isize,
    pub x_end: isize,
}

/// Whether the x axis of the candlestick chart of a series of `len` points
/// fits in an `isize`.
pub open spec fn x_range_fits(len: int, candle_size: int, start: int) -> bool {
    let first_x = start as isize;
    let last_x = (start + last_candle_first(len, candle_size)) as isize;
    &&& isize::MIN <= first_x - (candle_size as isize) <= isize::MAX
    &&& isize::MIN <= last_x + (candle_size as isize) <= isize::MAX
}

/// The layout of the candlestick chart of a series of `len` points, or
/// `PlotError::EmptySeries` when the series is empty.
pub fn plot_layout(len: usize, candle_size: usize, custom_candle_start_index: Option<usize>) -> (r: Result<CandlestickLayout, PlotError>)
    requires
        len > 0 ==> {
            &&& candle_size >= 1
            &&& candle_start(custom_candle_start_index) + last_candle_first(len as int, candle_size as int) <= usize::MAX
            &&& x_range_fits(len as int, candle_size as int, candle_start(custom_candle_start_index))
        },
    ensures
        len == 0 <==> r == Err::<CandlestickLayout, PlotError>(PlotError::EmptySeries),
        len > 0 <==> r is Ok,
        r matches Ok(l) ==> {
            &&& is_candlestick_spans(l.candles@, len as int, candle_size as int, candle_start(custom_candle_start_index))
            &&& l.x_start == l.candles@[0].x - (candle_size as isize)
            &&& l.x_end == l.candles@[l.candles@.len() - 1].x + (candle_size as isize)
        },
{
    if len == 0 {
        return Err(PlotError::EmptySeries);
    }
    let candles = parse_data(len, candle_size, custom_candle_start_index);
    let n = candles.len();
    proof {
        lemma_last_candle_first(candles@, len as int, candle_size as int, candle_start(custom_candle_start_index));
    }
    let cs = candle_size as isize;
    let x_start = candles[0].x - cs;
    let x_end = candles[n - 1].x + cs;
    Ok(CandlestickLayout { candles, x_start, x_end })
}

/// The first candle stands at `start` and the last one spans from
/// `last_candle_first`.
proof fn lemma_last_candle_first(c: Seq<Candle>, len: int, candle_size: int, start: int)
    requires
        len >= 1,
        candle_size >= 1,
        is_candlestick_spans(c, len, candle_size, start),
    ensures
        c[0].x == start as isize,
        c[c.len() - 1].first == last_candle_first(len, candle_size),
        c[c.len() - 1].x == (start + last_candle_first(len, candle_size)) as isize,
{
    let j = c.len() - 1;
    assert(0 * candle_size == 0);
    assert(c[0].first == 0 * candle_size);
    assert(c[j].first == j * candle_size);
    assert(j * candle_size + candle_size == c.len() * candle_size) by (nonlinear_arith)
        requires j == c.len() - 1;
    vstd::arithmetic::div_mod::lemma_fundamental_div_mod_converse(
        len - 1, candle_size, j, len - 1 - j * candle_size);
}

/// The candles cover the series: the first opens at its first point, each
/// next one opens at the point where the previous one closed, the last one
/// closes at its last point, and consecutive candles stand `candle_size`
/// apart on the x axis (as long as the positions do not wrap).
pub proof fn lemma_candles_cover_series(c: Seq<Candle>, len: int, candle_size: int, start: int)
    requires
        len >= 1,
        candle_size >= 1,
        start >= 0,
        is_candlestick_spans(c, len, candle_size, start),
    ensures
        c[0].first == 0,
        c[c.len() - 1].last == len - 1,
        forall|j: int| 0 <= j < c.len() - 1 ==> #[trigger] c[j].last == c[j + 1].first,
        forall|j: int| 0 <= j < c.len() ==> c[j].first <= c[j].last,
        forall|j: int| 0 <= j < c.len() - 1 && start + (j + 1) * candle_size <= isize::MAX ==>
            #[trigger] c[j + 1].x == c[j].x + candle_size,
{
    let n = c.len();
    assert(c[0].first == 0 * candle_size);
    assert(c[n - 1].first == (n - 1) * candle_size);
    assert((n - 1) * candle_size + candle_size == n * candle_size) by (nonlinear_arith);
    assert forall|j: int| 0 <= j < n - 1 implies #[trigger] c[j].last == c[j + 1].first by {
        assert(c[j].first == j * candle_size);
        assert(c[j + 1].first == (j + 1) * candle_size);
        assert((j + 1) * candle_size == j * candle_size + candle_size) by (nonlinear_arith);
        vstd::arithmetic::mul::lemma_mul_inequality(j + 1, n - 1, candle_size);
    }
    assert forall|j: int| 0 <= j < n implies c[j].first <= c[j].last by {
        assert(c[j].first == j * candle_size);
        vstd::arithmetic::mul::lemma_mul_inequality(j, n - 1, candle_size);
    }
    assert forall|j: int| 0 <= j < n - 1 && start + (j + 1) * candle_size <= isize::MAX implies
        #[trigger] c[j + 1].x == c[j].x + candle_size by {
        assert(c[j].x == (start + j * candle_size) as isize);
        assert(c[j + 1].x == (start + (j + 1) * candle_size) as isize);
        assert((j + 1) * candle_size == j * candle_size + candle_size) by (nonlinear_arith);
        assert(0 <= j * candle_size) by (nonlinear_arith) requires 0 <= j, 0 <= candle_size;
        assert((start + j * candle_size) as isize == start + j * candle_size);
        assert((start + (j + 1) * candle_size) as isize == start + (j + 1) * candle_size);
    }
}

/// The count of candles is fixed by the length of the series and the
/// candle size.
proof fn lemma_candle_count_unique(n1: int, n2: int, len: int, candle_size: int)
    requires
        n1 >= 1,
        n2 >= 1,
        candle_size >= 1,
        (n1 - 1) * candle_size < len <= n1 * candle_size,
        (n2 - 1) * candle_size < len <= n2 * candle_size,
    ensures
        n1 == n2,
{
    if n1 < n2 {
        vstd::arithmetic::mul::lemma_mul_inequality(n1, n2 - 1, candle_size);
    }
    if n2 < n1 {
        vstd::arithmetic::mul::lemma_mul_inequality(n2, n1 - 1, candle_size);
    }
}

/// Candles that stand from another position are the same candles, moved on
/// the x axis by the difference of the positions (as long as the positions
/// do not wrap); and no position given means position 1.
pub proof fn lemma_candles_shift(c1: Seq<Candle>, c2: Seq<Candle>, len: int, candle_size: int, s1: int, s2: int)
    requires
        len >= 1,
        candle_size >= 1,
        0 <= s1,
        0 <= s2,
        s1 + last_candle_first(len, candle_size) <= isize::MAX,
        s2 + last_candle_first(len, candle_size) <= isize::MAX,
        is_candlestick_spans(c1, len, candle_size, s1),
        is_candlestick_spans(c2, len, candle_size, s2),
    ensures
        c1.len() == c2.len(),
        forall|j: int| 0 <= j < c1.len() ==> {
            &&& (#[trigger] c2[j]).first == c1[j].first
            &&& c2[j].last == c1[j].last
            &&& c2[j].x == c1[j].x + (s2 - s1)
        },
        candle_start(None) == candle_start(Some(1usize)),
{
    lemma_candle_count_unique(c1.len() as int, c2.len() as int, len, candle_size);
    let n = c1.len() as int;
    assert forall|j: int| 0 <= j < n implies {
        &&& (#[trigger] c2[j]).first == c1[j].first
        &&& c2[j].last == c1[j].last
        &&& c2[j].x == c1[j].x + (s2 - s1)
    } by {
        assert(c1[j].first == j * candle_size);
        assert(c2[j].first == j * candle_size);
        vstd::arithmetic::mul::lemma_mul_inequality(j, n - 1, candle_size);
        lemma_first_le_last_first(j, candle_size, len);
        assert(0 <= j * candle_size) by (nonlinear_arith) requires 0 <= j, 0 <= candle_size;
        assert((s1 + j * candle_size) as isize == s1 + j * candle_size);
        assert((s2 + j * candle_size) as isize == s2 + j * candle_size);
    }
}

} // verus!
