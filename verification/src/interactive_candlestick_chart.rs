//! The candlestick chart of the interactive viewer.

use vstd::prelude::*;
use crate::candlestick_chart::{candle_start, is_candlestick_spans, last_candle_first, parse_data, Candle};
use crate::interactive_bar_chart::paused_text;
use crate::text::{decimal, push_decimal};

verus! {

/// The keys of the candlestick chart viewer.
pub const INSTRUCTIONS: &'static str = "Instructions:
  ←/→=Previous/next series
  ↑/↓=Adjust candle size
  +/-=Adjust sample rate
  1/2=Adjust start index
  9/0=Adjust end index
  P=Start/Stop
  R=Restart
  <Esc>=Exit
";

/// The window title: `"{PAUSED, }candle size = {cs}, sample rate = {sr:.1},
/// start index = {start}, end index = {end}"`.
pub open spec fn window_title(paused: bool, candle_size: usize, sample_rate: u32, start_index: usize, end_index: usize) -> Seq<char> {
    paused_text(paused) + "candle size = "@ + decimal(candle_size as nat) + ", sample rate = "@
        + decimal(sample_rate as nat) + ".0, start index = "@ + decimal(start_index as nat)
        + ", end index = "@ + decimal(end_index as nat)
}

/// The window title (see `window_title`).
pub fn get_window_title(paused: bool, candle_size: usize, sample_rate: u32, start_index: usize, end_index: usize) -> (title: String)
    ensures
        title@ == window_title(paused, candle_size, sample_rate, start_index, end_index),
{
    let mut title = if paused { String::from_str("PAUSED, ") } else { String::from_str("") };
    title.append("candle size = ");
    push_decimal(&mut title, candle_size as u64);
    title.append(", sample rate = ");
    push_decimal(&mut title, sample_rate as u64);
    title.append(".0, start index = ");
    push_decimal(&mut title, start_index as u64);
    title.append(", end index = ");
    push_decimal(&mut title, end_index as u64);
    title
}

/// The first point of the last candle lies within the series.
proof fn lemma_last_candle_first_bound(len: int, candle_size: int)
    requires
        len >= 1,
        candle_size >= 1,
    ensures
        0 <= last_candle_first(len, candle_size) <= len - 1,
{
    vstd::arithmetic::div_mod::lemma_fundamental_div_mod(len - 1, candle_size);
    vstd::arithmetic::div_mod::lemma_div_pos_is_pos(len - 1, candle_size);
    vstd::arithmetic::div_mod::lemma_mod_bound(len - 1, candle_size);
    assert(((len - 1) / candle_size) * candle_size == candle_size * ((len - 1) / candle_size)) by (nonlinear_arith);
    assert(0 <= ((len - 1) / candle_size) * candle_size) by (nonlinear_arith)
        requires (len - 1) / candle_size >= 0, candle_size >= 1;
}

/// Whether the x axis of the chart of a part of `len` points that starts at
/// point `start_index` fits in an `i32`.
pub open spec fn x_range_fits(len: int, candle_size: int, start_index: int) -> bool {
    let last_x = (start_index + 1 + last_candle_first(len, candle_size)) as isize;
    &&& i32::MIN <= (start_index as i32) - (candle_size as i32) <= i32::MAX
    &&& i32::MIN <= (last_x as i32) + (candle_size as i32) <= i32::MAX
}

/// The x axis of the chart of the part of a series that starts at point
/// `start_index` and holds `len` points, cut in candles of `candle_size`
/// points standing from `start_index + 1` on: it leaves `candle_size` free
/// before `start_index` and after the last candle.
pub fn x_range(len: usize, candle_size: usize, start_index: usize) -> (r: (i32, i32))
    requires
        len >= 1,
        candle_size >= 1,
        start_index + 1 + last_candle_first(len as int, candle_size as int) <= usize::MAX,
        x_range_fits(len as int, candle_size as int, start_index as int),
    ensures
        r.0 == (start_index as i32) - (candle_size as i32),
        r.1 == ((start_index + 1 + last_candle_first(len as int, candle_size as int)) as isize as i32) + (candle_size as i32),
{
    let candles = parse_data(len, candle_size, Some(start_index + 1));
    let n = candles.len();
    proof {
        let j = n - 1;
        let c = candles@;
        assert(c[j as int].first == j * candle_size);
        assert(j * candle_size + candle_size == c.len() * candle_size) by (nonlinear_arith)
            requires j == c.len() - 1;
        vstd::arithmetic::div_mod::lemma_fundamental_div_mod_converse(
            len - 1, candle_size as int, j as int, len - 1 - j * candle_size);
    }
    let cs = candle_size as i32;
    let first = start_index as i32 - cs;
    let last = candles[n - 1].x as i32 + cs;
    (first, last)
}

/// What a redraw shows: the candles of the `visible` points revealed of a
/// part of `len` points that starts at point `start_index` (standing from
/// `start_index + 1` on), and the number of candles of the whole part, by
/// which the candle width is set.
pub fn revealed_candles(len: usize, visible: usize, candle_size: usize, start_index: usize) -> (r: (Vec<Candle>, usize))
    requires
        1 <= visible <= len,
        candle_size >= 1,
        start_index + 1 + last_candle_first(visible as int, candle_size as int) <= usize::MAX,
    ensures
        is_candlestick_spans(r.0@, visible as int, candle_size as int, start_index + 1),
        (r.1 - 1) * candle_size < len <= r.1 * candle_size,
{
    let candles = parse_data(visible, candle_size, Some(start_index + 1));
    proof { lemma_last_candle_first_bound(len as int, candle_size as int); }
    let all = parse_data(len, candle_size, None);
    (candles, all.len())
}

} // verus!
