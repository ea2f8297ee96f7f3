//! The bar chart of the interactive viewer.

use vstd::prelude::*;
use crate::bar_chart::{bars, is_bars, Bar};
use crate::helpers::Palette;
use crate::text::{decimal, push_decimal};

verus! {

/// The keys of the bar chart viewer.
pub const INSTRUCTIONS: &'static str = "Instructions:
  ←/→=Previous/next series
  +/-=Adjust sample rate
  1/2=Adjust start index
  9/0=Adjust end index
  P=Start/Stop
  R=Restart
  <Esc>=Exit
";

/// The prefix of the title of a paused viewer.
pub open spec fn paused_text(paused: bool) -> Seq<char> {
    if paused { "PAUSED, "@ } else { ""@ }
}

/// The window title: `"{PAUSED, }sample rate = {sr:.1}, start index = {start}, end index = {end}"`.
pub open spec fn window_title(paused: bool, sample_rate: u32, start_index: usize, end_index: usize) -> Seq<char> {
    paused_text(paused) + "sample rate = "@ + decimal(sample_rate as nat) + ".0, start index = "@
        + decimal(start_index as nat) + ", end index = "@ + decimal(end_index as nat)
}

/// The window title (see `window_title`).
pub fn get_window_title(paused: bool, sample_rate: u32, start_index: usize, end_index: usize) -> (title: String)
    ensures
        title@ == window_title(paused, sample_rate, start_index, end_index),
{
    let mut title = if paused { String::from_str("PAUSED, ") } else { String::from_str("") };
    title.append("sample rate = ");
    push_decimal(&mut title, sample_rate as u64);
    title.append(".0, start index = ");
    push_decimal(&mut title, start_index as u64);
    title.append(", end index = ");
    push_decimal(&mut title, end_index as u64);
    title
}

/// The x axis of the chart of the part of a series that starts at point
/// `start_index` and holds `len` points: it spans the part exactly.
pub fn x_range(len: usize, start_index: usize) -> (r: (usize, usize))
    requires
        start_index + len <= usize::MAX,
    ensures
        r == (start_index, (start_index + len) as usize),
{
    (start_index, start_index + len)
}

/// The number of labels on the x axis: one per point, at most 11.
pub fn x_label_count(len: usize) -> (n: usize)
    ensures
        n == if len < 11 { len } else { 11 },
{
    if len < 11 { len } else { 11 }
}

/// The bars revealed so far: the first `curr_index` points of a part of
/// `len` points that starts at point `start_index`, coloured along the
/// "cool" scheme over the whole part.
pub fn revealed_bars(len: usize, curr_index: usize, start_index: usize) -> (b: Vec<Bar>)
    requires
        curr_index <= len,
        start_index + len <= usize::MAX,
    ensures
        is_bars(b@, curr_index as int, len as int, start_index as int, Palette::Cool),
{
    bars(curr_index, len, start_index, Palette::Cool)
}

/// A later reveal keeps the bars of an earlier one where they stood, sampled
/// at the same points of the "cool" scheme, and adds the next ones after
/// them.
pub proof fn lemma_later_reveal_extends(b1: Seq<Bar>, b2: Seq<Bar>, m1: int, m2: int, n: int, start_index: int)
    requires
        0 <= m1 <= m2,
        is_bars(b1, m1, n, start_index, Palette::Cool),
        is_bars(b2, m2, n, start_index, Palette::Cool),
    ensures
        forall|k: int| 0 <= k < m1 ==> (#[trigger] b2[k]).x == b1[k].x
            && b2[k].color.sampled_at() == b1[k].color.sampled_at(),
        forall|k: int| m1 <= k < m2 ==> (#[trigger] b2[k]).x == start_index + k,
{
}

} // verus!
