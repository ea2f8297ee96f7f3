//! The interactive viewer: a window that reveals one data series point
//! after point as a bar or candlestick chart, and that the keyboard steers.
//!
//! The window, the clock and the drawing stay with the caller; this module
//! holds what the viewer decides: which series and which part of it is
//! shown, how far it has been revealed, how fast it goes, and when the chart
//! has to be set up again or redrawn.

use vstd::prelude::*;
use vstd::arithmetic::power2::{pow2, lemma2_to64, lemma_pow2_unfold, lemma_pow2_strictly_increases};
use crate::helpers::interactive_chart::SAMPLE_RATE;
use crate::interactive_bar_chart;
use crate::interactive_candlestick_chart;

verus! {

/// The two kinds of chart the viewer can show.
#[derive(Clone, Copy, Debug, PartialEq, Eq, Structural)]
pub enum ChartType {
    Bar,
    Candlestick,
}

/// The keys the viewer reacts to, and any other key by a code of the
/// caller's choice (keys are told apart to detect a held key).
#[derive(Clone, Copy, Debug, PartialEq, Eq, Structural)]
pub enum GuiKey {
    /// `+`: raise the sample rate.
    Equal,
    /// `-`: lower the sample rate.
    Minus,
    /// Pause or resume.
    P,
    /// Restart from the start index.
    R,
    /// Larger candles.
    Up,
    /// Smaller candles.
    Down,
    /// Next series.
    Right,
    /// Previous series.
    Left,
    /// Move the start index back.
    Key1,
    /// Move the start index forward.
    Key2,
    /// Move the end index forward.
    Key0,
    /// Move the end index back.
    Key9,
    /// The key that counts as pressed before any key was.
    Unknown,
    /// Any other key.
    Other(u32),
}

/// Highest sample rate, in points per second.
pub const MAX_SAMPLE_RATE: u32 = 100000;

/// The state of a viewer over a list of series, of which only the lengths
/// matter here.
pub struct GuiState {
    pub chart_type: ChartType,
    /// Length of each series.
    pub series_lens: Vec<usize>,
    /// The series on screen.
    pub v_index: usize,
    /// Points per candle (candlestick charts only).
    pub candle_size: usize,
    pub paused: bool,
    /// Points revealed per second.
    pub sample_rate: u32,
    /// First point of the shown part of the series.
    pub start_index: usize,
    /// End (exclusive) of the shown part of the series.
    pub end_index: usize,
    /// End (exclusive) of the revealed points.
    pub curr_index: usize,
    /// `curr_index` at the last redraw.
    pub last_index_flushed: usize,
    pub chart_reloading_required: bool,
    pub chart_initialization_required: bool,
    /// The key pressed last.
    pub previous_key: GuiKey,
    /// How many times in a row `previous_key` was pressed, less one.
    pub increment: u32,
}

/// What the caller does after a key was handled.
#[derive(Clone, Copy, Debug, PartialEq, Eq, Structural)]
pub struct KeyOutcome {
    /// Restart the clock that paces the reveal.
    pub reset_clock: bool,
    /// Write the window title anew.
    pub update_title: bool,
}

/// What the caller draws in a frame.
#[derive(Clone, Copy, Debug, PartialEq, Eq, Structural)]
pub enum FrameAction {
    /// Nothing changed since the last redraw.
    Skip,
    /// Redraw the part `start..end` of series `series`, of which the first
    /// `visible` points are revealed; first set the chart up again if
    /// `reinit` holds.
    Draw { reinit: bool, series: usize, start: usize, end: usize, visible: usize, candle_size: usize },
}

/// The series after series `i` of `n`, going round.
pub open spec fn next_series(i: int, n: int) -> int {
    (i + 1) % n
}

/// The series before series `i` of `n`, going round.
pub open spec fn previous_series(i: int, n: int) -> int {
    if i == 0 { n - 1 } else { i - 1 }
}

impl GuiState {
    /// Length of the series on screen.
    pub open spec fn current_len(self) -> int {
        self.series_lens@[self.v_index as int] as int
    }

    /// The invariant of a viewer: it shows an existing series, the revealed
    /// part lies within the shown part, which lies within the series, the
    /// sample rate lies in `1..=MAX_SAMPLE_RATE`, and candles hold at least
    /// one point.
    pub open spec fn wf(self) -> bool {
        &&& 0 < self.series_lens@.len() <= usize::MAX
        &&& forall|i: int| 0 <= i < self.series_lens@.len() ==> #[trigger] self.series_lens@[i] <= isize::MAX
        &&& self.v_index < self.series_lens@.len()
        &&& self.start_index <= self.curr_index <= self.end_index <= self.current_len()
        &&& 1 <= self.sample_rate <= MAX_SAMPLE_RATE
        &&& self.chart_type == ChartType::Candlestick ==> self.candle_size >= 1
    }

    /// `increment` after `key` was pressed.
    pub open spec fn pressed_increment(self, key: GuiKey) -> u32 {
        if self.previous_key == key { (self.increment + 1) as u32 } else { 0 }
    }

    /// The step by which `key` moves a value: two to the power of the
    /// number of times it was pressed in a row, less one.
    pub open spec fn step(self, key: GuiKey) -> nat {
        pow2(self.pressed_increment(key) as nat)
    }

    /// Whether handling `key` computes its step.
    pub open spec fn uses_step(self, key: GuiKey) -> bool {
        match key {
            GuiKey::Equal => self.sample_rate < MAX_SAMPLE_RATE,
            GuiKey::Minus => self.sample_rate > 1,
            GuiKey::Key1 => self.start_index > 0,
            GuiKey::Key2 => self.start_index + 2 < self.end_index,
            GuiKey::Key0 => self.end_index < self.current_len(),
            GuiKey::Key9 => self.end_index > self.start_index + 2,
            _ => false,
        }
    }

    /// Whether handling `key` overflows: the count of a held key, its step
    /// or the candle size.
    pub open spec fn key_overflows(self, key: GuiKey) -> bool {
        ||| self.previous_key == key && self.increment == u32::MAX
        ||| self.uses_step(key) && self.step(key) > usize::MAX
        ||| key == GuiKey::Key2 && self.uses_step(key) && self.start_index + self.step(key) + 2 > usize::MAX
        ||| key == GuiKey::Up && self.chart_type == ChartType::Candlestick && self.candle_size == usize::MAX
    }

    /// The state after `key` was handled.
    pub open spec fn after_key(self, key: GuiKey) -> GuiState {
        self.pressed(key).apply_key(key, self.step(key))
    }

    /// The state with `key` recorded as the key pressed last.
    pub open spec fn pressed(self, key: GuiKey) -> GuiState {
        GuiState { previous_key: key, increment: self.pressed_increment(key), ..self }
    }

    /// The effect of `key`, whose step is `p`.
    pub open spec fn apply_key(self, key: GuiKey, p: nat) -> GuiState {
        match key {
            GuiKey::Equal => self.faster(p),
            GuiKey::Minus => self.slower(p),
            GuiKey::P => GuiState { paused: !self.paused, ..self },
            GuiKey::R => self.restarted(),
            GuiKey::Up => self.larger_candles(),
            GuiKey::Down => self.smaller_candles(),
            GuiKey::Right => self.switched_to(next_series(self.v_index as int, self.series_lens@.len() as int)),
            GuiKey::Left => self.switched_to(previous_series(self.v_index as int, self.series_lens@.len() as int)),
            GuiKey::Key1 => self.start_moved_back(p),
            GuiKey::Key2 => self.start_moved_forward(p),
            GuiKey::Key0 => self.end_moved_forward(p),
            GuiKey::Key9 => self.end_moved_back(p),
            _ => self,
        }
    }

    /// The state with the chart marked to be set up again and redrawn.
    pub open spec fn reloaded(self) -> GuiState {
        GuiState { chart_initialization_required: true, chart_reloading_required: true, ..self }
    }

    /// The sample rate raised by `p`, up to `MAX_SAMPLE_RATE`.
    pub open spec fn faster(self, p: nat) -> GuiState {
        if self.sample_rate < MAX_SAMPLE_RATE {
            GuiState {
                sample_rate: if self.sample_rate + p >= MAX_SAMPLE_RATE { MAX_SAMPLE_RATE } else { (self.sample_rate + p) as u32 },
                ..self
            }
        } else {
            self
        }
    }

    /// The sample rate lowered by `p`, down to 1.
    pub open spec fn slower(self, p: nat) -> GuiState {
        if self.sample_rate > 1 {
            GuiState { sample_rate: if p >= self.sample_rate { 1 } else { (self.sample_rate - p) as u32 }, ..self }
        } else {
            self
        }
    }

    /// The reveal restarted from the start index.
    pub open spec fn restarted(self) -> GuiState {
        GuiState {
            curr_index: self.start_index,
            last_index_flushed: self.start_index,
            chart_reloading_required: true,
            ..self
        }
    }

    /// Candles one point larger (candlestick charts only).
    pub open spec fn larger_candles(self) -> GuiState {
        if self.chart_type == ChartType::Candlestick {
            GuiState { candle_size: (self.candle_size + 1) as usize, ..self.reloaded() }
        } else {
            self
        }
    }

    /// Candles one point smaller, down to one point (candlestick charts only).
    pub open spec fn smaller_candles(self) -> GuiState {
        if self.chart_type == ChartType::Candlestick && self.candle_size > 1 {
            GuiState { candle_size: (self.candle_size - 1) as usize, ..self.reloaded() }
        } else {
            self
        }
    }

    /// The start index moved back by `p`, down to 0.
    pub open spec fn start_moved_back(self, p: nat) -> GuiState {
        if self.start_index > 0 {
            GuiState {
                start_index: if self.start_index < p { 0 } else { (self.start_index - p) as usize },
                ..self.reloaded()
            }
        } else {
            self
        }
    }

    /// The start index moved forward by `p`, up to two points before the
    /// end index, the reveal kept at least one point past it.
    pub open spec fn start_moved_forward(self, p: nat) -> GuiState {
        if self.start_index + 2 < self.end_index {
            let start = if self.start_index + p + 2 > self.end_index { self.end_index - 2 } else { self.start_index + p };
            GuiState {
                start_index: start as usize,
                curr_index: if start + 1 > self.curr_index { (start + 1) as usize } else { self.curr_index },
                ..self.reloaded()
            }
        } else {
            self
        }
    }

    /// The end index moved forward by `p`, up to the end of the series.
    pub open spec fn end_moved_forward(self, p: nat) -> GuiState {
        if self.end_index < self.current_len() {
            GuiState {
                end_index: if self.end_index + p > self.current_len() { self.current_len() as usize } else { (self.end_index + p) as usize },
                ..self.reloaded()
            }
        } else {
            self
        }
    }

    /// The end index moved back by `p`, down to two points past the start
    /// index, the reveal kept at least one point before it.
    pub open spec fn end_moved_back(self, p: nat) -> GuiState {
        if self.end_index > self.start_index + 2 {
            let end = if self.end_index < p + self.start_index + 2 { self.start_index + 2 } else { self.end_index - p };
            GuiState {
                end_index: end as usize,
                curr_index: if end - 1 < self.curr_index { (end - 1) as usize } else { self.curr_index },
                ..self.reloaded()
            }
        } else {
            self
        }
    }

    /// The state with series `i` on screen, shown whole and not yet revealed.
    pub open spec fn switched_to(self, i: int) -> GuiState {
        GuiState {
            v_index: i as usize,
            start_index: 0,
            end_index: self.series_lens@[i],
            curr_index: 0,
            last_index_flushed: 0,
            chart_initialization_required: true,
            ..self
        }
    }

    /// What the caller is asked to do after `key` was handled.
    pub open spec fn key_outcome(self, key: GuiKey) -> KeyOutcome {
        match key {
            GuiKey::P => KeyOutcome { reset_clock: self.paused, update_title: true },
            GuiKey::R | GuiKey::Right | GuiKey::Left => KeyOutcome { reset_clock: true, update_title: true },
            GuiKey::Unknown | GuiKey::Other(_) => KeyOutcome { reset_clock: false, update_title: false },
            _ => KeyOutcome { reset_clock: false, update_title: true },
        }
    }
}

impl GuiState {
    /// Every key that does not overflow keeps a viewer well formed.
    pub proof fn lemma_after_key_wf(self, key: GuiKey)
        requires
            self.wf(),
            !self.key_overflows(key),
        ensures
            self.after_key(key).wf(),
    {
        let s = self.pressed(key);
        assert(s.wf());
        let p = self.step(key);
        vstd::arithmetic::power2::lemma_pow2_pos(self.pressed_increment(key) as nat);
        match key {
            GuiKey::Equal => assert(s.faster(p).wf()),
            GuiKey::Minus => assert(s.slower(p).wf()),
            GuiKey::Key1 => assert(s.start_moved_back(p).wf()),
            GuiKey::Key2 => assert(s.start_moved_forward(p).wf()),
            GuiKey::Key0 => assert(s.end_moved_forward(p).wf()),
            GuiKey::Key9 => assert(s.end_moved_back(p).wf()),
            GuiKey::Up => assert(s.larger_candles().wf()),
            GuiKey::Down => assert(s.smaller_candles().wf()),
            GuiKey::R => assert(s.restarted().wf()),
            _ => {},
        }
        if key == GuiKey::Right || key == GuiKey::Left {
            let n = s.series_lens@.len() as int;
            let i = if key == GuiKey::Right { next_series(s.v_index as int, n) } else { previous_series(s.v_index as int, n) };
            assert(0 <= i < n);
            assert(s.series_lens@[i] <= isize::MAX);
            assert(s.switched_to(i).wf());
        }
    }
}

/// A power of two that fits in a `usize` is at most half of `usize::MAX + 1`.
pub(crate) proof fn lemma_step_fits(e: nat)
    requires
        pow2(e) <= usize::MAX,
    ensures
        2 * pow2(e) <= usize::MAX + 1,
{
    vstd::layout::unsigned_int_max_values();
    let b = usize::BITS as nat;
    if e > b {
        lemma_pow2_strictly_increases(b, e);
    }
    assert(e < b);
    lemma_pow2_unfold(e + 1);
    if e + 1 < b {
        lemma_pow2_strictly_increases(e + 1, b);
    }
}

/// `2` to the power `e`.
pub(crate) fn pow2_usize(e: u32) -> (p: usize)
    requires
        pow2(e as nat) <= usize::MAX,
    ensures
        p == pow2(e as nat),
{
    proof { lemma2_to64(); }
    let mut p: usize = 1;
    let mut k: u32 = 0;
    while k < e
        invariant
            k <= e,
            p == pow2(k as nat),
            pow2(e as nat) <= usize::MAX,
        decreases e - k,
    {
        proof {
            lemma_pow2_unfold((k + 1) as nat);
            if k + 1 < e {
                lemma_pow2_strictly_increases((k + 1) as nat, e as nat);
            }
        }
        p = p * 2;
        k = k + 1;
    }
    p
}

impl GuiState {
    /// A viewer of the series whose lengths are `series_lens`, showing the
    /// first one whole and not yet revealed, unpaused, at `SAMPLE_RATE`
    /// points per second, with candles of `candle_size` points (10 when
    /// none is given).
    pub fn new(chart_type: ChartType, series_lens: Vec<usize>, candle_size: Option<usize>) -> (s: GuiState)
        requires
            series_lens@.len() > 0,
            forall|i: int| 0 <= i < series_lens@.len() ==> #[trigger] series_lens@[i] <= isize::MAX,
            chart_type == ChartType::Candlestick ==> (match candle_size {
                Some(c) => c >= 1,
                None => true,
            }),
        ensures
            s.wf(),
            s.chart_type == chart_type,
            s.series_lens@ == series_lens@,
            s.v_index == 0,
            s.candle_size == (match candle_size {
                Some(c) => c,
                None => 10,
            }),
            !s.paused,
            s.sample_rate == SAMPLE_RATE,
            s.start_index == 0,
            s.end_index == series_lens@[0],
            s.curr_index == 0,
            s.last_index_flushed == 0,
            !s.chart_reloading_required,
            !s.chart_initialization_required,
            s.previous_key == GuiKey::Unknown,
            s.increment == 0,
    {
        let end_index = series_lens[0];
        let ghost n = series_lens.len();
        let candle_size = match candle_size {
            Some(c) => c,
            None => 10,
        };
        GuiState {
            chart_type,
            series_lens,
            v_index: 0,
            candle_size,
            paused: false,
            sample_rate: SAMPLE_RATE,
            start_index: 0,
            end_index,
            curr_index: 0,
            last_index_flushed: 0,
            chart_reloading_required: false,
            chart_initialization_required: false,
            previous_key: GuiKey::Unknown,
            increment: 0,
        }
    }

    /// Length of the series on screen.
    pub fn current_series_len(&self) -> (len: usize)
        requires
            self.wf(),
        ensures
            len == self.current_len(),
    {
        self.series_lens[self.v_index]
    }

    /// Whether handling `key` would overflow (see `key_overflows`).
    pub fn key_would_overflow(&self, key: GuiKey) -> (b: bool)
        requires
            self.wf(),
        ensures
            b == self.key_overflows(key),
    {
        if self.previous_key == key && self.increment == u32::MAX {
            return true;
        }
        let inc: u32 = if self.previous_key == key { self.increment + 1 } else { 0 };
        let len = self.current_series_len();
        let uses_step = match key {
            GuiKey::Equal => self.sample_rate < MAX_SAMPLE_RATE,
            GuiKey::Minus => self.sample_rate > 1,
            GuiKey::Key1 => self.start_index > 0,
            GuiKey::Key2 => self.start_index + 2 < self.end_index,
            GuiKey::Key0 => self.end_index < len,
            GuiKey::Key9 => self.end_index > self.start_index + 2,
            _ => false,
        };
        let step_overflows = inc >= usize::BITS;
        proof {
            vstd::layout::unsigned_int_max_values();
            let b = usize::BITS as nat;
            if inc >= usize::BITS {
                if inc as nat > b {
                    lemma_pow2_strictly_increases(b, inc as nat);
                }
            } else {
                lemma_pow2_strictly_increases(inc as nat, b);
            }
        }
        if uses_step && step_overflows {
            return true;
        }
        if key == GuiKey::Key2 && uses_step {
            let p = pow2_usize(inc);
            if p > usize::MAX - 2 - self.start_index {
                return true;
            }
        }
        (key == GuiKey::Up && self.chart_type == ChartType::Candlestick && self.candle_size == usize::MAX)
    }

    /// Handles a press of `key`.
    pub fn handle_key(&mut self, key: GuiKey) -> (out: KeyOutcome)
        requires
            old(self).wf(),
            !old(self).key_overflows(key),
        ensures
            final(self).wf(),
            *final(self) == old(self).after_key(key),
            out == old(self).key_outcome(key),
    {
        proof { old(self).lemma_after_key_wf(key); }
        let was_paused = self.paused;
        if self.previous_key == key {
            self.increment = self.increment + 1;
        } else {
            self.increment = 0;
        }
        self.previous_key = key;
        let inc = self.increment;
        match key {
            GuiKey::Equal => {
                self.raise_sample_rate(inc);
                KeyOutcome { reset_clock: false, update_title: true }
            },
            GuiKey::Minus => {
                self.lower_sample_rate(inc);
                KeyOutcome { reset_clock: false, update_title: true }
            },
            GuiKey::P => {
                self.paused = !self.paused;
                KeyOutcome { reset_clock: was_paused, update_title: true }
            },
            GuiKey::R => {
                self.curr_index = self.start_index;
                self.last_index_flushed = self.start_index;
                self.chart_reloading_required = true;
                KeyOutcome { reset_clock: true, update_title: true }
            },
            GuiKey::Up => {
                if self.chart_type == ChartType::Candlestick {
                    self.candle_size = self.candle_size + 1;
                    self.chart_initialization_required = true;
                    self.chart_reloading_required = true;
                }
                KeyOutcome { reset_clock: false, update_title: true }
            },
            GuiKey::Down => {
                if self.chart_type == ChartType::Candlestick && self.candle_size > 1 {
                    self.candle_size = self.candle_size - 1;
                    self.chart_initialization_required = true;
                    self.chart_reloading_required = true;
                }
                KeyOutcome { reset_clock: false, update_title: true }
            },
            GuiKey::Right => {
                let n = self.series_lens.len();
                let i = (self.v_index + 1) % n;
                self.switch_to(i);
                KeyOutcome { reset_clock: true, update_title: true }
            },
            GuiKey::Left => {
                let n = self.series_lens.len();
                let i = if self.v_index == 0 { n - 1 } else { self.v_index - 1 };
                self.switch_to(i);
                KeyOutcome { reset_clock: true, update_title: true }
            },
            GuiKey::Key1 => {
                self.move_start_back(inc);
                KeyOutcome { reset_clock: false, update_title: true }
            },
            GuiKey::Key2 => {
                self.move_start_forward(inc);
                KeyOutcome { reset_clock: false, update_title: true }
            },
            GuiKey::Key0 => {
                self.move_end_forward(inc);
                KeyOutcome { reset_clock: false, update_title: true }
            },
            GuiKey::Key9 => {
                self.move_end_back(inc);
                KeyOutcome { reset_clock: false, update_title: true }
            },
            _ => KeyOutcome { reset_clock: false, update_title: false },
        }
    }

    /// Raises the sample rate by `2^inc`, up to `MAX_SAMPLE_RATE`.
    fn raise_sample_rate(&mut self, inc: u32)
        requires
            old(self).sample_rate < MAX_SAMPLE_RATE ==> pow2(inc as nat) <= usize::MAX,
        ensures
            *final(self) == old(self).faster(pow2(inc as nat)),
    {
        if self.sample_rate < MAX_SAMPLE_RATE {
            let p = pow2_usize(inc);
            if p >= (MAX_SAMPLE_RATE - self.sample_rate) as usize {
                self.sample_rate = MAX_SAMPLE_RATE;
            } else {
                self.sample_rate = self.sample_rate + p as u32;
            }
        }
    }

    /// Lowers the sample rate by `2^inc`, down to 1.
    fn lower_sample_rate(&mut self, inc: u32)
        requires
            old(self).sample_rate > 1 ==> pow2(inc as nat) <= usize::MAX,
        ensures
            *final(self) == old(self).slower(pow2(inc as nat)),
    {
        if self.sample_rate > 1 {
            let p = pow2_usize(inc);
            if p >= self.sample_rate as usize {
                self.sample_rate = 1;
            } else {
                self.sample_rate = self.sample_rate - p as u32;
            }
        }
    }

    /// Moves the start index back by `2^inc`, down to 0.
    fn move_start_back(&mut self, inc: u32)
        requires
            old(self).start_index > 0 ==> pow2(inc as nat) <= usize::MAX,
        ensures
            *final(self) == old(self).start_moved_back(pow2(inc as nat)),
    {
        if self.start_index > 0 {
            let p = pow2_usize(inc);
            if self.start_index < p {
                self.start_index = 0;
            } else {
                self.start_index = self.start_index - p;
            }
            self.chart_initialization_required = true;
            self.chart_reloading_required = true;
        }
    }

    /// Moves the start index forward by `2^inc` (see `start_moved_forward`).
    fn move_start_forward(&mut self, inc: u32)
        requires
            old(self).start_index <= isize::MAX,
            old(self).start_index <= old(self).end_index,
            old(self).start_index + 2 < old(self).end_index ==> pow2(inc as nat) <= usize::MAX,
            old(self).start_index + 2 < old(self).end_index ==> old(self).start_index + pow2(inc as nat) + 2 <= usize::MAX,
        ensures
            *final(self) == old(self).start_moved_forward(pow2(inc as nat)),
    {
        if self.start_index + 2 < self.end_index {
            let p = pow2_usize(inc);
            proof { lemma_step_fits(inc as nat); }
            self.start_index = self.start_index + p;
            if self.start_index + 2 > self.end_index {
                self.start_index = self.end_index - 2;
            }
            if self.start_index + 1 > self.curr_index {
                self.curr_index = self.start_index + 1;
            }
            self.chart_initialization_required = true;
            self.chart_reloading_required = true;
        }
    }

    /// Moves the end index forward by `2^inc`, up to the end of the series.
    fn move_end_forward(&mut self, inc: u32)
        requires
            old(self).wf(),
            old(self).end_index < old(self).current_len() ==> pow2(inc as nat) <= usize::MAX,
        ensures
            *final(self) == old(self).end_moved_forward(pow2(inc as nat)),
    {
        let len = self.series_lens[self.v_index];
        if self.end_index < len {
            let p = pow2_usize(inc);
            proof { lemma_step_fits(inc as nat); }
            self.end_index = self.end_index + p;
            if self.end_index > len {
                self.end_index = len;
            }
            self.chart_initialization_required = true;
            self.chart_reloading_required = true;
        }
    }

    /// Moves the end index back by `2^inc` (see `end_moved_back`).
    fn move_end_back(&mut self, inc: u32)
        requires
            old(self).end_index <= isize::MAX,
            old(self).start_index <= old(self).end_index,
            old(self).end_index > old(self).start_index + 2 ==> pow2(inc as nat) <= usize::MAX,
        ensures
            *final(self) == old(self).end_moved_back(pow2(inc as nat)),
    {
        if self.end_index > self.start_index + 2 {
            let p = pow2_usize(inc);
            proof { lemma_step_fits(inc as nat); }
            if self.end_index < p + self.start_index + 2 {
                self.end_index = self.start_index + 2;
            } else {
                self.end_index = self.end_index - p;
            }
            if self.end_index - 1 < self.curr_index {
                self.curr_index = self.end_index - 1;
            }
            self.chart_initialization_required = true;
            self.chart_reloading_required = true;
        }
    }

    /// Puts series `i` on screen, shown whole and not yet revealed.
    fn switch_to(&mut self, i: usize)
        requires
            i < old(self).series_lens@.len(),
        ensures
            *final(self) == old(self).switched_to(i as int),
    {
        self.v_index = i;
        self.start_index = 0;
        self.end_index = self.series_lens[i];
        self.curr_index = 0;
        self.last_index_flushed = 0;
        self.chart_initialization_required = true;
    }
}

impl GuiState {
    /// Whether the clock may reveal one more point.
    pub open spec fn can_advance(self) -> bool {
        self.curr_index < self.end_index && !self.paused
    }

    /// Whether the chart has to be redrawn: points were revealed since the
    /// last redraw, or a key asked for it, and at least one point of the
    /// shown part is revealed.
    pub open spec fn needs_redraw(self) -> bool {
        (self.last_index_flushed < self.curr_index || self.chart_reloading_required)
            && self.curr_index > self.start_index
    }

    /// The state after a frame.
    pub open spec fn after_frame(self) -> GuiState {
        if self.needs_redraw() {
            GuiState {
                chart_initialization_required: false,
                last_index_flushed: self.curr_index,
                chart_reloading_required: false,
                ..self
            }
        } else {
            self
        }
    }

    /// What a frame draws.
    pub open spec fn frame_action(self) -> FrameAction {
        if self.needs_redraw() {
            FrameAction::Draw {
                reinit: self.chart_initialization_required,
                series: self.v_index,
                start: self.start_index,
                end: self.end_index,
                visible: (self.curr_index - self.start_index) as usize,
                candle_size: self.candle_size,
            }
        } else {
            FrameAction::Skip
        }
    }

    /// Reveals one more point if the clock may (see `can_advance`); tells
    /// whether it did.
    pub fn advance(&mut self) -> (moved: bool)
        requires
            old(self).wf(),
        ensures
            final(self).wf(),
            moved == old(self).can_advance(),
            *final(self) == (if moved {
                GuiState { curr_index: (old(self).curr_index + 1) as usize, ..*old(self) }
            } else {
                *old(self)
            }),
    {
        if self.curr_index < self.end_index && !self.paused {
            self.curr_index = self.curr_index + 1;
            true
        } else {
            false
        }
    }

    /// Decides what a frame draws and records the redraw.
    pub fn frame(&mut self) -> (action: FrameAction)
        requires
            old(self).wf(),
        ensures
            final(self).wf(),
            *final(self) == old(self).after_frame(),
            action == old(self).frame_action(),
            action matches FrameAction::Draw { series, start, end, visible, .. } ==> {
                &&& series < old(self).series_lens@.len()
                &&& start <= end <= old(self).series_lens@[series as int]
                &&& 0 < visible <= end - start
            },
    {
        if (self.last_index_flushed < self.curr_index || self.chart_reloading_required)
            && self.curr_index > self.start_index {
            let reinit = self.chart_initialization_required;
            self.chart_initialization_required = false;
            self.last_index_flushed = self.curr_index;
            self.chart_reloading_required = false;
            FrameAction::Draw {
                reinit,
                series: self.v_index,
                start: self.start_index,
                end: self.end_index,
                visible: self.curr_index - self.start_index,
                candle_size: self.candle_size,
            }
        } else {
            FrameAction::Skip
        }
    }
}

/// The instructions of a viewer of `chart_type`: the keys it reacts to.
pub open spec fn instructions(chart_type: ChartType) -> Seq<char> {
    match chart_type {
        ChartType::Candlestick => interactive_candlestick_chart::INSTRUCTIONS@,
        ChartType::Bar => interactive_bar_chart::INSTRUCTIONS@,
    }
}

/// The instructions of a viewer of `chart_type` (see `instructions`).
pub fn get_instructions(chart_type: ChartType) -> (s: String)
    ensures
        s@ == instructions(chart_type),
{
    match chart_type {
        ChartType::Candlestick => String::from_str(interactive_candlestick_chart::INSTRUCTIONS),
        ChartType::Bar => String::from_str(interactive_bar_chart::INSTRUCTIONS),
    }
}

/// The window title of a viewer of `chart_type`.
pub open spec fn window_title(
    chart_type: ChartType,
    paused: bool,
    candle_size: usize,
    sample_rate: u32,
    start_index: usize,
    end_index: usize,
) -> Seq<char> {
    match chart_type {
        ChartType::Candlestick => interactive_candlestick_chart::window_title(
            paused, candle_size, sample_rate, start_index, end_index),
        ChartType::Bar => interactive_bar_chart::window_title(paused, sample_rate, start_index, end_index),
    }
}

/// The window title of a viewer of `chart_type` (see `window_title`).
pub fn get_window_title(
    chart_type: ChartType,
    paused: bool,
    candle_size: usize,
    sample_rate: u32,
    start_index: usize,
    end_index: usize,
) -> (title: String)
    ensures
        title@ == window_title(chart_type, paused, candle_size, sample_rate, start_index, end_index),
{
    match chart_type {
        ChartType::Candlestick => interactive_candlestick_chart::get_window_title(
            paused, candle_size, sample_rate, start_index, end_index),
        ChartType::Bar => interactive_bar_chart::get_window_title(paused, sample_rate, start_index, end_index),
    }
}

impl GuiState {
    /// The window title of the viewer.
    pub fn title(&self) -> (title: String)
        ensures
            title@ == window_title(self.chart_type, self.paused, self.candle_size, self.sample_rate,
                self.start_index, self.end_index),
    {
        get_window_title(self.chart_type, self.paused, self.candle_size, self.sample_rate,
            self.start_index, self.end_index)
    }
}

/// Going to the next series and then to the previous one, or the other way
/// round, comes back to the series one started from.
pub proof fn lemma_next_previous_series(i: int, n: int)
    requires
        0 <= i < n,
    ensures
        0 <= next_series(i, n) < n,
        0 <= previous_series(i, n) < n,
        previous_series(next_series(i, n), n) == i,
        next_series(previous_series(i, n), n) == i,
{
    if i + 1 < n {
        vstd::arithmetic::div_mod::lemma_small_mod((i + 1) as nat, n as nat);
    } else {
        vstd::arithmetic::div_mod::lemma_mod_self_0(n);
    }
    if i == 0 {
        vstd::arithmetic::div_mod::lemma_mod_self_0(n);
    } else {
        vstd::arithmetic::div_mod::lemma_small_mod(i as nat, n as nat);
    }
}

/// `→` then `←` shows again the series that was on screen, whole and from
/// its first point.
pub proof fn lemma_right_then_left(s: GuiState)
    requires
        s.wf(),
        !s.key_overflows(GuiKey::Right),
    ensures
        !s.after_key(GuiKey::Right).key_overflows(GuiKey::Left),
        s.after_key(GuiKey::Right).after_key(GuiKey::Left).v_index == s.v_index,
        s.after_key(GuiKey::Right).after_key(GuiKey::Left).start_index == 0,
        s.after_key(GuiKey::Right).after_key(GuiKey::Left).end_index == s.current_len(),
        s.after_key(GuiKey::Right).after_key(GuiKey::Left).curr_index == 0,
{
    lemma_next_previous_series(s.v_index as int, s.series_lens@.len() as int);
}

/// `←` then `→` shows again the series that was on screen, whole and from
/// its first point.
pub proof fn lemma_left_then_right(s: GuiState)
    requires
        s.wf(),
        !s.key_overflows(GuiKey::Left),
    ensures
        !s.after_key(GuiKey::Left).key_overflows(GuiKey::Right),
        s.after_key(GuiKey::Left).after_key(GuiKey::Right).v_index == s.v_index,
        s.after_key(GuiKey::Left).after_key(GuiKey::Right).start_index == 0,
        s.after_key(GuiKey::Left).after_key(GuiKey::Right).end_index == s.current_len(),
        s.after_key(GuiKey::Left).after_key(GuiKey::Right).curr_index == 0,
{
    lemma_next_previous_series(s.v_index as int, s.series_lens@.len() as int);
}

/// Pressing `P` twice pauses and resumes: the viewer is as paused as before,
/// and every index is where it was.
pub proof fn lemma_pause_twice(s: GuiState)
    requires
        s.wf(),
        !s.key_overflows(GuiKey::P),
        !s.after_key(GuiKey::P).key_overflows(GuiKey::P),
    ensures
        s.after_key(GuiKey::P).after_key(GuiKey::P).paused == s.paused,
        s.after_key(GuiKey::P).after_key(GuiKey::P).start_index == s.start_index,
        s.after_key(GuiKey::P).after_key(GuiKey::P).end_index == s.end_index,
        s.after_key(GuiKey::P).after_key(GuiKey::P).curr_index == s.curr_index,
        s.key_outcome(GuiKey::P).reset_clock != s.after_key(GuiKey::P).key_outcome(GuiKey::P).reset_clock,
{
}

/// A frame right after a frame draws nothing and changes nothing.
pub proof fn lemma_frame_idempotent(s: GuiState)
    requires
        s.wf(),
    ensures
        s.after_frame().frame_action() == FrameAction::Skip,
        s.after_frame().after_frame() == s.after_frame(),
{
}

/// While paused, the clock reveals nothing.
pub proof fn lemma_paused_holds(s: GuiState)
    requires
        s.wf(),
        s.paused,
    ensures
        !s.can_advance(),
{
}

/// On a candlestick chart, `↑` then `↓` gives back the candle size one
/// started from.
pub proof fn lemma_up_then_down(s: GuiState)
    requires
        s.wf(),
        s.chart_type == ChartType::Candlestick,
        !s.key_overflows(GuiKey::Up),
    ensures
        !s.after_key(GuiKey::Up).key_overflows(GuiKey::Down),
        s.after_key(GuiKey::Up).after_key(GuiKey::Down).candle_size == s.candle_size,
{
}

/// Keys change neither the kind of chart nor the series.
pub proof fn lemma_keys_keep_series(s: GuiState, key: GuiKey)
    ensures
        s.after_key(key).chart_type == s.chart_type,
        s.after_key(key).series_lens == s.series_lens,
{
}

impl GuiState {
    /// The state after the keys `keys` were handled in turn.
    pub open spec fn after_keys(self, keys: Seq<GuiKey>) -> GuiState
        decreases keys.len(),
    {
        if keys.len() == 0 {
            self
        } else {
            self.after_key(keys[0]).after_keys(keys.drop_first())
        }
    }

    /// Whether no key of `keys`, handled in turn, overflows.
    pub open spec fn keys_fit(self, keys: Seq<GuiKey>) -> bool
        decreases keys.len(),
    {
        keys.len() == 0 || (!self.key_overflows(keys[0]) && self.after_key(keys[0]).keys_fit(keys.drop_first()))
    }

    /// Whether every series has at least two points.
    pub open spec fn series_have_two_points(self) -> bool {
        forall|i: int| 0 <= i < self.series_lens@.len() ==> #[trigger] self.series_lens@[i] >= 2
    }
}

/// How many times `key` occurs in `keys`.
pub open spec fn count_key(keys: Seq<GuiKey>, key: GuiKey) -> nat
    decreases keys.len(),
{
    if keys.len() == 0 {
        0
    } else {
        (if keys[0] == key { 1nat } else { 0nat }) + count_key(keys.drop_first(), key)
    }
}

/// Any sequence of keys keeps a viewer well formed: the revealed part within
/// the shown part within the series, and the sample rate in
/// `1..=MAX_SAMPLE_RATE`.
pub proof fn lemma_keys_keep_wf(s: GuiState, keys: Seq<GuiKey>)
    requires
        s.wf(),
        s.keys_fit(keys),
    ensures
        s.after_keys(keys).wf(),
    decreases keys.len(),
{
    if keys.len() > 0 {
        s.lemma_after_key_wf(keys[0]);
        lemma_keys_keep_wf(s.after_key(keys[0]), keys.drop_first());
    }
}

/// Only `P` pauses and resumes: after any sequence of keys the viewer is
/// paused exactly when it was and `P` was pressed an even number of times,
/// or it was not and `P` was pressed an odd number of times.
pub proof fn lemma_keys_pause_parity(s: GuiState, keys: Seq<GuiKey>)
    ensures
        s.after_keys(keys).paused == (s.paused != (count_key(keys, GuiKey::P) % 2 == 1)),
    decreases keys.len(),
{
    if keys.len() > 0 {
        lemma_keys_pause_parity(s.after_key(keys[0]), keys.drop_first());
    }
}

/// One key keeps at least two points shown when every series has two.
pub proof fn lemma_key_keeps_two_points(s: GuiState, key: GuiKey)
    requires
        s.wf(),
        !s.key_overflows(key),
        s.series_have_two_points(),
        s.start_index + 2 <= s.end_index,
    ensures
        s.after_key(key).series_have_two_points(),
        s.after_key(key).start_index + 2 <= s.after_key(key).end_index,
{
    if key == GuiKey::Right || key == GuiKey::Left {
        let n = s.series_lens@.len() as int;
        lemma_next_previous_series(s.v_index as int, n);
        let i = if key == GuiKey::Right { next_series(s.v_index as int, n) } else { previous_series(s.v_index as int, n) };
        assert(s.series_lens@[i] >= 2);
    }
}

/// When every series has at least two points, a viewer that starts as `new`
/// makes it always shows at least two of them: `start + 2 <= end <= len`
/// after any sequence of keys (and the reveal and redraws leave both ends
/// where they are).
pub proof fn lemma_keys_keep_two_points(s: GuiState, keys: Seq<GuiKey>)
    requires
        s.wf(),
        s.keys_fit(keys),
        s.series_have_two_points(),
        s.start_index + 2 <= s.end_index,
    ensures
        s.after_keys(keys).start_index + 2 <= s.after_keys(keys).end_index <= s.after_keys(keys).current_len(),
    decreases keys.len(),
{
    if keys.len() > 0 {
        s.lemma_after_key_wf(keys[0]);
        lemma_key_keeps_two_points(s, keys[0]);
        lemma_keys_keep_two_points(s.after_key(keys[0]), keys.drop_first());
    } else {
        assert(s.end_index <= s.current_len());
    }
}

/// `k` presses of `→` go `k` series further round, and show that series
/// whole and from its first point (once `k > 0`).
pub proof fn lemma_right_presses(s: GuiState, k: nat)
    requires
        s.wf(),
        s.keys_fit(Seq::new(k, |j: int| GuiKey::Right)),
    ensures
        s.after_keys(Seq::new(k, |j: int| GuiKey::Right)).v_index == (s.v_index + k) % (s.series_lens@.len() as int),
        k > 0 ==> s.after_keys(Seq::new(k, |j: int| GuiKey::Right)).start_index == 0,
        k > 0 ==> s.after_keys(Seq::new(k, |j: int| GuiKey::Right)).curr_index == 0,
        k > 0 ==> s.after_keys(Seq::new(k, |j: int| GuiKey::Right)).end_index
            == s.after_keys(Seq::new(k, |j: int| GuiKey::Right)).current_len(),
    decreases k,
{
    let n = s.series_lens@.len() as int;
    let keys = Seq::new(k, |j: int| GuiKey::Right);
    if k == 0 {
        vstd::arithmetic::div_mod::lemma_small_mod(s.v_index as nat, n as nat);
    } else {
        let rest = Seq::new((k - 1) as nat, |j: int| GuiKey::Right);
        assert(keys.drop_first() =~= rest);
        let t = s.after_key(GuiKey::Right);
        s.lemma_after_key_wf(GuiKey::Right);
        lemma_next_previous_series(s.v_index as int, n);
        assert(keys[0] == GuiKey::Right);
        assert(s.after_keys(keys) == t.after_keys(rest));
        lemma_right_presses(t, (k - 1) as nat);
        assert(t.v_index == (s.v_index + 1) % n);
        vstd::arithmetic::div_mod::lemma_add_mod_noop_right((k - 1) as int, s.v_index + 1, n);
        if k > 1 {
            lemma_keys_keep_wf(t, rest);
        }
    }
}

/// Pressing `→` as many times as there are series comes back to the series
/// one started from.
pub proof fn lemma_right_round_trip(s: GuiState)
    requires
        s.wf(),
        s.keys_fit(Seq::new(s.series_lens@.len(), |j: int| GuiKey::Right)),
    ensures
        s.after_keys(Seq::new(s.series_lens@.len(), |j: int| GuiKey::Right)).v_index == s.v_index,
{
    let n = s.series_lens@.len();
    lemma_right_presses(s, n);
    vstd::arithmetic::div_mod::lemma_mod_add_multiples_vanish(s.v_index as int, n as int);
    vstd::arithmetic::div_mod::lemma_small_mod(s.v_index as nat, n as nat);
}

/// The window title begins with `"PAUSED, "` exactly when the viewer is
/// paused.
pub proof fn lemma_title_shows_pause(
    chart_type: ChartType,
    paused: bool,
    candle_size: usize,
    sample_rate: u32,
    start_index: usize,
    end_index: usize,
)
    ensures
        ({
            let t = window_title(chart_type, paused, candle_size, sample_rate, start_index, end_index);
            t.len() >= 8 && t.subrange(0, 8) == "PAUSED, "@
        }) <==> paused,
{
    reveal_strlit("PAUSED, ");
    reveal_strlit("");
    reveal_strlit("sample rate = ");
    reveal_strlit("candle size = ");
    let t = window_title(chart_type, paused, candle_size, sample_rate, start_index, end_index);
    if paused {
        assert(t.subrange(0, 8) =~= "PAUSED, "@);
    } else {
        if t.len() >= 8 && t.subrange(0, 8) == "PAUSED, "@ {
            assert(t.subrange(0, 8)[0] == 'P');
            assert(t[0] == 'P');
            assert(false);
        }
    }
}

/// Whether two states show the same part of the same series, revealed as
/// far.
pub open spec fn same_indices(s: GuiState, t: GuiState) -> bool {
    &&& t.v_index == s.v_index
    &&& t.start_index == s.start_index
    &&& t.end_index == s.end_index
    &&& t.curr_index == s.curr_index
}

/// What each key does, in terms of the state before it. With `p` the step
/// of the key (`2^k`, where `k` counts the presses of the same key right
/// before it):
/// - `+` raises the sample rate to `min(rate + p, 100000)` and `-` lowers it
///   to `max(rate - p, 1)`;
/// - `P` flips the pause; `R` brings the reveal back to the start index and
///   asks for a redraw;
/// - on a candlestick chart `↑` makes candles one point larger and `↓` one
///   point smaller (never below one point), both asking for a new set-up
///   and a redraw; on a bar chart they change nothing;
/// - `→` and `←` show the next and previous series, going round, whole and
///   not yet revealed;
/// - `1` moves the start index to `max(start - p, 0)`; `2` moves it to
///   `min(start + p, end - 2)` (the reveal kept one point past it), when at
///   least three points are shown; `0` moves the end index to
///   `min(end + p, len)`; `9` moves it to `max(end - p, start + 2)` (the reveal
///   kept one point before it), when at least three points are shown; each
///   move asks for a new set-up and a redraw;
/// - any other key only counts as pressed.
pub proof fn lemma_key_effects(s: GuiState, key: GuiKey)
    requires
        s.wf(),
        !s.key_overflows(key),
    ensures
        ({
            let t = s.after_key(key);
            let k: int = if s.previous_key == key { s.increment + 1 } else { 0 };
            let p: int = pow2(k as nat) as int;
            let n: int = s.series_lens@.len() as int;
            let len: int = s.current_len();
            &&& t.previous_key == key
            &&& t.increment == k
            &&& t.series_lens == s.series_lens
            &&& t.chart_type == s.chart_type
            &&& key == GuiKey::Equal ==> {
                &&& t.sample_rate == (if s.sample_rate == MAX_SAMPLE_RATE { MAX_SAMPLE_RATE as int }
                    else if s.sample_rate + p > MAX_SAMPLE_RATE { MAX_SAMPLE_RATE as int } else { s.sample_rate + p })
                &&& same_indices(s, t) && t.paused == s.paused && t.candle_size == s.candle_size
            }
            &&& key == GuiKey::Minus ==> {
                &&& t.sample_rate == (if s.sample_rate - p < 1 { 1 } else { s.sample_rate - p })
                &&& same_indices(s, t) && t.paused == s.paused && t.candle_size == s.candle_size
            }
            &&& key == GuiKey::P ==> {
                &&& t.paused == !s.paused
                &&& same_indices(s, t) && t.sample_rate == s.sample_rate && t.candle_size == s.candle_size
            }
            &&& key == GuiKey::R ==> {
                &&& t.curr_index == s.start_index && t.last_index_flushed == s.start_index
                &&& t.start_index == s.start_index && t.end_index == s.end_index && t.v_index == s.v_index
                &&& t.chart_reloading_required
                &&& t.paused == s.paused
            }
            &&& key == GuiKey::Up ==> {
                &&& same_indices(s, t)
                &&& s.chart_type == ChartType::Candlestick ==> t.candle_size == s.candle_size + 1
                    && t.chart_initialization_required && t.chart_reloading_required
                &&& s.chart_type == ChartType::Bar ==> t.candle_size == s.candle_size
                    && t.chart_initialization_required == s.chart_initialization_required
                    && t.chart_reloading_required == s.chart_reloading_required
            }
            &&& key == GuiKey::Down ==> {
                &&& same_indices(s, t)
                &&& (s.chart_type == ChartType::Candlestick && s.candle_size > 1) ==> t.candle_size == s.candle_size - 1
                    && t.chart_initialization_required && t.chart_reloading_required
                &&& !(s.chart_type == ChartType::Candlestick && s.candle_size > 1) ==> t.candle_size == s.candle_size
            }
            &&& (key == GuiKey::Right || key == GuiKey::Left) ==> {
                &&& key == GuiKey::Right ==> t.v_index == (if s.v_index + 1 == n { 0 } else { s.v_index + 1 })
                &&& key == GuiKey::Left ==> t.v_index == (if s.v_index == 0 { n - 1 } else { s.v_index - 1 })
                &&& t.start_index == 0 && t.curr_index == 0 && t.last_index_flushed == 0
                &&& t.end_index == s.series_lens@[t.v_index as int]
                &&& t.chart_initialization_required
            }
            &&& key == GuiKey::Key1 ==> {
                &&& t.end_index == s.end_index && t.curr_index == s.curr_index && t.v_index == s.v_index
                &&& s.start_index > 0 ==> t.start_index == (if s.start_index < p { 0 } else { s.start_index - p })
                    && t.chart_initialization_required && t.chart_reloading_required
                &&& s.start_index == 0 ==> t.start_index == 0
            }
            &&& key == GuiKey::Key2 ==> {
                &&& t.end_index == s.end_index && t.v_index == s.v_index
                &&& s.start_index + 2 < s.end_index ==> {
                    &&& t.start_index == (if s.start_index + p < s.end_index - 2 { s.start_index + p } else { s.end_index - 2 })
                    &&& t.curr_index == (if s.curr_index < t.start_index + 1 { t.start_index + 1 } else { s.curr_index as int })
                    &&& t.chart_initialization_required && t.chart_reloading_required
                }
                &&& s.start_index + 2 >= s.end_index ==> t.start_index == s.start_index && t.curr_index == s.curr_index
            }
            &&& key == GuiKey::Key0 ==> {
                &&& t.start_index == s.start_index && t.curr_index == s.curr_index && t.v_index == s.v_index
                &&& s.end_index < len ==> t.end_index == (if s.end_index + p < len { s.end_index + p } else { len })
                    && t.chart_initialization_required && t.chart_reloading_required
                &&& s.end_index == len ==> t.end_index == len
            }
            &&& key == GuiKey::Key9 ==> {
                &&& t.start_index == s.start_index && t.v_index == s.v_index
                &&& s.end_index > s.start_index + 2 ==> {
                    &&& t.end_index == (if s.end_index - p > s.start_index + 2 { s.end_index - p } else { s.start_index + 2 })
                    &&& t.curr_index == (if s.curr_index > t.end_index - 1 { t.end_index - 1 } else { s.curr_index as int })
                    &&& t.chart_initialization_required && t.chart_reloading_required
                }
                &&& s.end_index <= s.start_index + 2 ==> t.end_index == s.end_index && t.curr_index == s.curr_index
            }
            &&& (key == GuiKey::Unknown || key is Other) ==> {
                &&& same_indices(s, t) && t.paused == s.paused && t.sample_rate == s.sample_rate
                &&& t.candle_size == s.candle_size
                &&& t.chart_initialization_required == s.chart_initialization_required
                &&& t.chart_reloading_required == s.chart_reloading_required
            }
        }),
{
    vstd::arithmetic::power2::lemma_pow2_pos((if s.previous_key == key { s.increment + 1 } else { 0 }) as nat);
    let n = s.series_lens@.len() as int;
    if s.v_index + 1 == n {
        vstd::arithmetic::div_mod::lemma_mod_self_0(n);
    } else {
        vstd::arithmetic::div_mod::lemma_small_mod((s.v_index + 1) as nat, n as nat);
    }
}

/// What a frame does: when points were revealed since the last redraw, or a
/// key asked for a redraw, and at least one point of the shown part is
/// revealed, it draws the shown part with what is revealed of it (set up
/// again first if a key asked for that) and records the redraw; otherwise it
/// draws and changes nothing.
pub proof fn lemma_frame_effects(s: GuiState)
    requires
        s.wf(),
    ensures
        ((s.last_index_flushed < s.curr_index || s.chart_reloading_required) && s.curr_index > s.start_index) ==> {
            &&& s.frame_action() == (FrameAction::Draw {
                reinit: s.chart_initialization_required,
                series: s.v_index,
                start: s.start_index,
                end: s.end_index,
                visible: (s.curr_index - s.start_index) as usize,
                candle_size: s.candle_size,
            })
            &&& s.after_frame().last_index_flushed == s.curr_index
            &&& !s.after_frame().chart_reloading_required
            &&& !s.after_frame().chart_initialization_required
            &&& same_indices(s, s.after_frame())
            &&& s.after_frame().candle_size == s.candle_size
        },
        !((s.last_index_flushed < s.curr_index || s.chart_reloading_required) && s.curr_index > s.start_index) ==> {
            &&& s.frame_action() == FrameAction::Skip
            &&& s.after_frame() == s
        },
{
}

/// A key that asks for a redraw is redrawn by the next frame, with the new
/// candle size and the new part of the series, as soon as a point of that
/// part is revealed.
pub proof fn lemma_reload_then_frame(s: GuiState, key: GuiKey)
    requires
        s.wf(),
        !s.key_overflows(key),
        s.after_key(key).chart_reloading_required,
        s.after_key(key).curr_index > s.after_key(key).start_index,
    ensures
        s.after_key(key).frame_action() == (FrameAction::Draw {
            reinit: s.after_key(key).chart_initialization_required,
            series: s.after_key(key).v_index,
            start: s.after_key(key).start_index,
            end: s.after_key(key).end_index,
            visible: (s.after_key(key).curr_index - s.after_key(key).start_index) as usize,
            candle_size: s.after_key(key).candle_size,
        }),
{
    s.lemma_after_key_wf(key);
    lemma_frame_effects(s.after_key(key));
}

/// What the caller is asked to do after a key: restart the clock on
/// resuming, restarting or changing series, and rewrite the title for every
/// key the viewer reacts to.
pub proof fn lemma_key_outcomes(s: GuiState, key: GuiKey)
    ensures
        s.key_outcome(key).reset_clock == ((key == GuiKey::P && s.paused) || key == GuiKey::R
            || key == GuiKey::Right || key == GuiKey::Left),
        s.key_outcome(key).update_title == !(key == GuiKey::Unknown || key is Other),
{
}

} // verus!
