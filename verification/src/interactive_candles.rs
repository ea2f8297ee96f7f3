//! An interactive candlestick viewer that sets the chart up again as soon as
//! a key asks for it, moves the start index forward only past revealed
//! points, numbers its candles 1, 2, ... from the start of the shown part,
//! and names the series in the window title.

use vstd::prelude::*;
use vstd::arithmetic::power2::pow2;
use crate::helpers::interactive_chart::SAMPLE_RATE;
use crate::interactive_bar_chart::paused_text;
use crate::interactive_chart::{lemma_next_previous_series, lemma_step_fits, next_series, pow2_usize, previous_series, GuiKey, MAX_SAMPLE_RATE};
use crate::text::{decimal, push_decimal};
use crate::candles::{is_candles, parse_data, Candle};

verus! {

/// The state of the viewer over a list of series, of which only the lengths
/// matter here.
pub struct CandlesGuiState {
    /// Length of each series.
    pub series_lens: Vec<usize>,
    /// The series on screen.
    pub v_index: usize,
    /// Points per candle.
    pub candle_size: usize,
    pub paused: bool,
    /// Points revealed per second.
    pub sample_rate: u32,
    /// First point of the shown part of the series.
    pub start_index: usize,
    /// End (exclusive) of the shown part of the series.
    pub end_index: usize,
    /// End (exclusive) of the revealed points.
    pub curr_index: usize,
    /// `curr_index` at the last redraw.
    pub last_index_flushed: usize,
    pub reloading_required: bool,
    /// The key pressed last.
    pub previous_key: GuiKey,
    /// How many times in a row `previous_key` was pressed, less one.
    pub increment: u32,
}

/// What the caller does after a key was handled.
#[derive(Clone, Copy, Debug, PartialEq, Eq, Structural)]
pub struct CandlesKeyOutcome {
    /// Set the chart up again for the part now shown.
    pub reinit: bool,
    /// Restart the clock that paces the reveal.
    pub reset_clock: bool,
    /// Write the window title anew.
    pub update_title: bool,
}

/// What the caller draws in a frame.
#[derive(Clone, Copy, Debug, PartialEq, Eq, Structural)]
pub enum CandlesFrameAction {
    /// Nothing changed since the last redraw.
    Skip,
    /// Redraw the part `start..end` of series `series`, of which the first
    /// `visible` points are revealed.
    Draw { series: usize, start: usize, end: usize, visible: usize, candle_size: usize },
}

impl CandlesGuiState {
    /// Length of the series on screen.
    pub open spec fn current_len(self) -> int {
        self.series_lens@[self.v_index as int] as int
    }

    /// The invariant of the viewer (see `GuiState::wf`).
    pub open spec fn wf(self) -> bool {
        &&& 0 < self.series_lens@.len() <= usize::MAX
        &&& forall|i: int| 0 <= i < self.series_lens@.len() ==> #[trigger] self.series_lens@[i] <= isize::MAX
        &&& self.v_index < self.series_lens@.len()
        &&& self.start_index <= self.curr_index <= self.end_index <= self.current_len()
        &&& 1 <= self.sample_rate <= MAX_SAMPLE_RATE
        &&& self.candle_size >= 1
    }

    /// `increment` after `key` was pressed.
    pub open spec fn pressed_increment(self, key: GuiKey) -> u32 {
        if self.previous_key == key { (self.increment + 1) as u32 } else { 0 }
    }

    /// The step by which `key` moves a value.
    pub open spec fn step(self, key: GuiKey) -> nat {
        pow2(self.pressed_increment(key) as nat)
    }

    /// Whether `key` moves the start index forward.
    pub open spec fn start_can_move_forward(self) -> bool {
        self.start_index + 2 < self.end_index && self.start_index + 1 < self.curr_index
    }

    /// Whether handling `key` computes its step.
    pub open spec fn uses_step(self, key: GuiKey) -> bool {
        match key {
            GuiKey::Equal => self.sample_rate < MAX_SAMPLE_RATE,
            GuiKey::Minus => self.sample_rate > 1,
            GuiKey::Key1 => self.start_index > 0,
            GuiKey::Key2 => self.start_can_move_forward(),
            GuiKey::Key0 => self.end_index < self.current_len(),
            GuiKey::Key9 => self.end_index > self.start_index + 2,
            _ => false,
        }
    }

    /// Whether handling `key` overflows: the count of a held key, its step,
    /// the start index moved forward, the end index moved back below 0, or
    /// the candle size.
    pub open spec fn key_overflows(self, key: GuiKey) -> bool {
        ||| self.previous_key == key && self.increment == u32::MAX
        ||| self.uses_step(key) && self.step(key) > usize::MAX
        ||| key == GuiKey::Key2 && self.uses_step(key) && self.start_index + self.step(key) + 2 > usize::MAX
        ||| key == GuiKey::Key9 && self.uses_step(key) && self.step(key) > self.end_index
        ||| key == GuiKey::Up && self.candle_size == usize::MAX
    }

    /// The state after `key` was handled.
    pub open spec fn after_key(self, key: GuiKey) -> CandlesGuiState {
        self.pressed(key).apply_key(key, self.step(key))
    }

    /// The state with `key` recorded as the key pressed last.
    pub open spec fn pressed(self, key: GuiKey) -> CandlesGuiState {
        CandlesGuiState { previous_key: key, increment: self.pressed_increment(key), ..self }
    }

    /// The effect of `key`, whose step is `p`.
    pub open spec fn apply_key(self, key: GuiKey, p: nat) -> CandlesGuiState {
        match key {
            GuiKey::Equal => self.faster(p),
            GuiKey::Minus => self.slower(p),
            GuiKey::P => CandlesGuiState { paused: !self.paused, ..self },
            GuiKey::R => CandlesGuiState {
                curr_index: self.start_index,
                last_index_flushed: self.start_index,
                reloading_required: true,
                ..self
            },
            GuiKey::Up => CandlesGuiState { candle_size: (self.candle_size + 1) as usize, reloading_required: true, ..self },
            GuiKey::Down => if self.candle_size > 1 {
                CandlesGuiState { candle_size: (self.candle_size - 1) as usize, reloading_required: true, ..self }
            } else {
                self
            },
            GuiKey::Right => self.switched_to(next_series(self.v_index as int, self.series_lens@.len() as int)),
            GuiKey::Left => self.switched_to(previous_series(self.v_index as int, self.series_lens@.len() as int)),
            GuiKey::Key1 => self.start_moved_back(p),
            GuiKey::Key2 => self.start_moved_forward(p),
            GuiKey::Key0 => self.end_moved_forward(p),
            GuiKey::Key9 => self.end_moved_back(p),
            _ => self,
        }
    }

    /// The sample rate raised by `p`, up to `MAX_SAMPLE_RATE`.
    pub open spec fn faster(self, p: nat) -> CandlesGuiState {
        if self.sample_rate < MAX_SAMPLE_RATE {
            CandlesGuiState {
                sample_rate: if self.sample_rate + p >= MAX_SAMPLE_RATE { MAX_SAMPLE_RATE } else { (self.sample_rate + p) as u32 },
                ..self
            }
        } else {
            self
        }
    }

    /// The sample rate lowered by `p`, down to 1.
    pub open spec fn slower(self, p: nat) -> CandlesGuiState {
        if self.sample_rate > 1 {
            CandlesGuiState { sample_rate: if p >= self.sample_rate { 1 } else { (self.sample_rate - p) as u32 }, ..self }
        } else {
            self
        }
    }

    /// The start index moved back by `p`, down to 0.
    pub open spec fn start_moved_back(self, p: nat) -> CandlesGuiState {
        if self.start_index > 0 {
            CandlesGuiState {
                start_index: if self.start_index < p { 0 } else { (self.start_index - p) as usize },
                reloading_required: true,
                ..self
            }
        } else {
            self
        }
    }

    /// The start index moved forward by `p`, up to two points before the end
    /// index, the reveal kept at least one point past it; only once more
    /// than one point past the start is revealed.
    pub open spec fn start_moved_forward(self, p: nat) -> CandlesGuiState {
        if self.start_can_move_forward() {
            let start = if self.start_index + p + 2 > self.end_index { self.end_index - 2 } else { self.start_index + p };
            CandlesGuiState {
                start_index: start as usize,
                curr_index: if start + 1 > self.curr_index { (start + 1) as usize } else { self.curr_index },
                reloading_required: true,
                ..self
            }
        } else {
            self
        }
    }

    /// The end index moved forward by `p`, up to the end of the series.
    pub open spec fn end_moved_forward(self, p: nat) -> CandlesGuiState {
        if self.end_index < self.current_len() {
            CandlesGuiState {
                end_index: if self.end_index + p > self.current_len() { self.current_len() as usize } else { (self.end_index + p) as usize },
                reloading_required: true,
                ..self
            }
        } else {
            self
        }
    }

    /// The end index moved back by `p`, down to two points past the start
    /// index, the reveal kept at least one point before it. Only meant for
    /// `p <= end_index`: a larger step takes the end index below 0, which
    /// `key_overflows` rules out.
    pub open spec fn end_moved_back(self, p: nat) -> CandlesGuiState {
        if self.end_index > self.start_index + 2 {
            let end = if self.end_index - p < self.start_index + 2 { self.start_index + 2 } else { self.end_index - p };
            CandlesGuiState {
                end_index: end as usize,
                curr_index: if end - 1 < self.curr_index { (end - 1) as usize } else { self.curr_index },
                reloading_required: true,
                ..self
            }
        } else {
            self
        }
    }

    /// The state with series `i` on screen, shown whole and not yet revealed.
    pub open spec fn switched_to(self, i: int) -> CandlesGuiState {
        CandlesGuiState {
            v_index: i as usize,
            start_index: 0,
            end_index: self.series_lens@[i],
            curr_index: 0,
            last_index_flushed: 0,
            ..self
        }
    }

    /// What the caller is asked to do after `key` was handled.
    pub open spec fn key_outcome(self, key: GuiKey) -> CandlesKeyOutcome {
        match key {
            GuiKey::P => CandlesKeyOutcome { reinit: false, reset_clock: self.paused, update_title: true },
            GuiKey::R => CandlesKeyOutcome { reinit: false, reset_clock: true, update_title: true },
            GuiKey::Right | GuiKey::Left => CandlesKeyOutcome { reinit: true, reset_clock: true, update_title: true },
            GuiKey::Up => CandlesKeyOutcome { reinit: true, reset_clock: false, update_title: true },
            GuiKey::Down => CandlesKeyOutcome { reinit: self.candle_size > 1, reset_clock: false, update_title: true },
            GuiKey::Key1 | GuiKey::Key2 | GuiKey::Key0 | GuiKey::Key9 =>
                CandlesKeyOutcome { reinit: self.uses_step(key), reset_clock: false, update_title: true },
            GuiKey::Unknown | GuiKey::Other(_) => CandlesKeyOutcome { reinit: false, reset_clock: false, update_title: false },
            _ => CandlesKeyOutcome { reinit: false, reset_clock: false, update_title: true },
        }
    }

    /// Every key that does not overflow keeps the viewer well formed.
    pub proof fn lemma_after_key_wf(self, key: GuiKey)
        requires
            self.wf(),
            !self.key_overflows(key),
        ensures
            self.after_key(key).wf(),
    {
        vstd::arithmetic::power2::lemma_pow2_pos(self.pressed_increment(key) as nat);
        if key == GuiKey::Right || key == GuiKey::Left {
            let n = self.series_lens@.len() as int;
            lemma_next_previous_series(self.v_index as int, n);
            let i = if key == GuiKey::Right { next_series(self.v_index as int, n) } else { previous_series(self.v_index as int, n) };
            assert(self.series_lens@[i] <= isize::MAX);
        }
    }

    /// A viewer of the series whose lengths are `series_lens`, showing the
    /// first one whole and not yet revealed, unpaused, at `SAMPLE_RATE`
    /// points per second, with candles of `candle_size` points.
    pub fn new(series_lens: Vec<usize>, candle_size: usize) -> (s: CandlesGuiState)
        requires
            series_lens@.len() > 0,
            forall|i: int| 0 <= i < series_lens@.len() ==> #[trigger] series_lens@[i] <= isize::MAX,
            candle_size >= 1,
        ensures
            s.wf(),
            s.series_lens@ == series_lens@,
            s.v_index == 0,
            s.candle_size == candle_size,
            !s.paused,
            s.sample_rate == SAMPLE_RATE,
            s.start_index == 0,
            s.end_index == series_lens@[0],
            s.curr_index == 0,
            s.last_index_flushed == 0,
            !s.reloading_required,
            s.previous_key == GuiKey::Unknown,
            s.increment == 0,
    {
        let end_index = series_lens[0];
        let ghost n = series_lens.len();
        CandlesGuiState {
            series_lens,
            v_index: 0,
            candle_size,
            paused: false,
            sample_rate: SAMPLE_RATE,
            start_index: 0,
            end_index,
            curr_index: 0,
            last_index_flushed: 0,
            reloading_required: false,
            previous_key: GuiKey::Unknown,
            increment: 0,
        }
    }

    /// Whether handling `key` would overflow (see `key_overflows`).
    pub fn key_would_overflow(&self, key: GuiKey) -> (b: bool)
        requires
            self.wf(),
        ensures
            b == self.key_overflows(key),
    {
        if self.previous_key == key && self.increment == u32::MAX {
            return true;
        }
        if key == GuiKey::Up {
            return self.candle_size == usize::MAX;
        }
        let inc: u32 = if self.previous_key == key { self.increment + 1 } else { 0 };
        let len = self.series_lens[self.v_index];
        let uses_step = match key {
            GuiKey::Equal => self.sample_rate < MAX_SAMPLE_RATE,
            GuiKey::Minus => self.sample_rate > 1,
            GuiKey::Key1 => self.start_index > 0,
            GuiKey::Key2 => self.start_index + 2 < self.end_index && self.start_index + 1 < self.curr_index,
            GuiKey::Key0 => self.end_index < len,
            GuiKey::Key9 => self.end_index > self.start_index + 2,
            _ => false,
        };
        if !uses_step {
            return false;
        }
        proof {
            vstd::layout::unsigned_int_max_values();
            let b = usize::BITS as nat;
            if inc >= usize::BITS {
                if inc as nat > b {
                    vstd::arithmetic::power2::lemma_pow2_strictly_increases(b, inc as nat);
                }
            } else {
                vstd::arithmetic::power2::lemma_pow2_strictly_increases(inc as nat, b);
            }
        }
        if inc >= usize::BITS {
            return true;
        }
        let p = pow2_usize(inc);
        match key {
            GuiKey::Key2 => p > usize::MAX - 2 - self.start_index,
            GuiKey::Key9 => p > self.end_index,
            _ => false,
        }
    }

    /// Handles a press of `key`.
    #[verifier::rlimit(40)]
    pub fn handle_key(&mut self, key: GuiKey) -> (out: CandlesKeyOutcome)
        requires
            old(self).wf(),
            !old(self).key_overflows(key),
        ensures
            final(self).wf(),
            *final(self) == old(self).after_key(key),
            out == old(self).key_outcome(key),
    {
        proof { old(self).lemma_after_key_wf(key); }
        let was_paused = self.paused;
        if self.previous_key == key {
            self.increment = self.increment + 1;
        } else {
            self.increment = 0;
        }
        self.previous_key = key;
        let inc = self.increment;
        match key {
            GuiKey::Equal => {
                self.raise_sample_rate(inc);
                CandlesKeyOutcome { reinit: false, reset_clock: false, update_title: true }
            },
            GuiKey::Minus => {
                self.lower_sample_rate(inc);
                CandlesKeyOutcome { reinit: false, reset_clock: false, update_title: true }
            },
            GuiKey::P => {
                self.paused = !self.paused;
                CandlesKeyOutcome { reinit: false, reset_clock: was_paused, update_title: true }
            },
            GuiKey::R => {
                self.curr_index = self.start_index;
                self.last_index_flushed = self.start_index;
                self.reloading_required = true;
                CandlesKeyOutcome { reinit: false, reset_clock: true, update_title: true }
            },
            GuiKey::Up => {
                self.candle_size = self.candle_size + 1;
                self.reloading_required = true;
                CandlesKeyOutcome { reinit: true, reset_clock: false, update_title: true }
            },
            GuiKey::Down => {
                let shrink = self.candle_size > 1;
                if shrink {
                    self.candle_size = self.candle_size - 1;
                    self.reloading_required = true;
                }
                CandlesKeyOutcome { reinit: shrink, reset_clock: false, update_title: true }
            },
            GuiKey::Right => {
                let n = self.series_lens.len();
                let i = (self.v_index + 1) % n;
                self.switch_to(i);
                CandlesKeyOutcome { reinit: true, reset_clock: true, update_title: true }
            },
            GuiKey::Left => {
                let n = self.series_lens.len();
                let i = if self.v_index == 0 { n - 1 } else { self.v_index - 1 };
                self.switch_to(i);
                CandlesKeyOutcome { reinit: true, reset_clock: true, update_title: true }
            },
            GuiKey::Key1 => {
                let moved = self.move_start_back(inc);
                CandlesKeyOutcome { reinit: moved, reset_clock: false, update_title: true }
            },
            GuiKey::Key2 => {
                let moved = self.move_start_forward(inc);
                CandlesKeyOutcome { reinit: moved, reset_clock: false, update_title: true }
            },
            GuiKey::Key0 => {
                let moved = self.move_end_forward(inc);
                CandlesKeyOutcome { reinit: moved, reset_clock: false, update_title: true }
            },
            GuiKey::Key9 => {
                let moved = self.move_end_back(inc);
                CandlesKeyOutcome { reinit: moved, reset_clock: false, update_title: true }
            },
            _ => CandlesKeyOutcome { reinit: false, reset_clock: false, update_title: false },
        }
    }

    /// Raises the sample rate by `2^inc`, up to `MAX_SAMPLE_RATE`.
    fn raise_sample_rate(&mut self, inc: u32)
        requires
            old(self).sample_rate < MAX_SAMPLE_RATE ==> pow2(inc as nat) <= usize::MAX,
        ensures
            *final(self) == old(self).faster(pow2(inc as nat)),
    {
        if self.sample_rate < MAX_SAMPLE_RATE {
            let p = pow2_usize(inc);
            if p >= (MAX_SAMPLE_RATE - self.sample_rate) as usize {
                self.sample_rate = MAX_SAMPLE_RATE;
            } else {
                self.sample_rate = self.sample_rate + p as u32;
            }
        }
    }

    /// Lowers the sample rate by `2^inc`, down to 1.
    fn lower_sample_rate(&mut self, inc: u32)
        requires
            old(self).sample_rate > 1 ==> pow2(inc as nat) <= usize::MAX,
        ensures
            *final(self) == old(self).slower(pow2(inc as nat)),
    {
        if self.sample_rate > 1 {
            let p = pow2_usize(inc);
            if p >= self.sample_rate as usize {
                self.sample_rate = 1;
            } else {
                self.sample_rate = self.sample_rate - p as u32;
            }
        }
    }

    /// Moves the start index back by `2^inc`, down to 0; tells whether it did.
    fn move_start_back(&mut self, inc: u32) -> (moved: bool)
        requires
            old(self).start_index > 0 ==> pow2(inc as nat) <= usize::MAX,
        ensures
            moved == (old(self).start_index > 0),
            *final(self) == old(self).start_moved_back(pow2(inc as nat)),
    {
        let moved = self.start_index > 0;
        if moved {
            let p = pow2_usize(inc);
            if self.start_index < p {
                self.start_index = 0;
            } else {
                self.start_index = self.start_index - p;
            }
            self.reloading_required = true;
        }
        moved
    }

    /// Moves the end index forward by `2^inc`, up to the end of the series;
    /// tells whether it did.
    fn move_end_forward(&mut self, inc: u32) -> (moved: bool)
        requires
            old(self).wf(),
            old(self).end_index < old(self).current_len() ==> pow2(inc as nat) <= usize::MAX,
        ensures
            moved == (old(self).end_index < old(self).current_len()),
            *final(self) == old(self).end_moved_forward(pow2(inc as nat)),
    {
        let len = self.series_lens[self.v_index];
        let moved = self.end_index < len;
        if moved {
            let p = pow2_usize(inc);
            proof { lemma_step_fits(inc as nat); }
            self.end_index = self.end_index + p;
            if self.end_index > len {
                self.end_index = len;
            }
            self.reloading_required = true;
        }
        moved
    }

    /// Moves the start index forward by `2^inc` when the shown part and the
    /// reveal allow it; tells whether it did.
    fn move_start_forward(&mut self, inc: u32) -> (moved: bool)
        requires
            old(self).start_index <= isize::MAX,
            old(self).start_index <= old(self).end_index,
            old(self).start_can_move_forward() ==> pow2(inc as nat) <= usize::MAX,
            old(self).start_can_move_forward() ==> old(self).start_index + pow2(inc as nat) + 2 <= usize::MAX,
        ensures
            moved == old(self).start_can_move_forward(),
            *final(self) == old(self).start_moved_forward(pow2(inc as nat)),
    {
        if self.start_index + 2 < self.end_index && self.start_index + 1 < self.curr_index {
            let p = pow2_usize(inc);
            proof { lemma_step_fits(inc as nat); }
            self.start_index = self.start_index + p;
            if self.start_index + 2 > self.end_index {
                self.start_index = self.end_index - 2;
            }
            if self.start_index + 1 > self.curr_index {
                self.curr_index = self.start_index + 1;
            }
            self.reloading_required = true;
            true
        } else {
            false
        }
    }

    /// Moves the end index back by `2^inc`, down to two points past the
    /// start index; tells whether it did.
    fn move_end_back(&mut self, inc: u32) -> (moved: bool)
        requires
            old(self).end_index <= isize::MAX,
            old(self).start_index <= old(self).end_index,
            old(self).end_index > old(self).start_index + 2 ==> pow2(inc as nat) <= old(self).end_index,
        ensures
            moved == (old(self).end_index > old(self).start_index + 2),
            *final(self) == old(self).end_moved_back(pow2(inc as nat)),
    {
        if self.end_index > self.start_index + 2 {
            let p = pow2_usize(inc);
            self.end_index = self.end_index - p;
            if self.end_index < self.start_index + 2 {
                self.end_index = self.start_index + 2;
            }
            if self.end_index - 1 < self.curr_index {
                self.curr_index = self.end_index - 1;
            }
            self.reloading_required = true;
            true
        } else {
            false
        }
    }

    /// Puts series `i` on screen, shown whole and not yet revealed.
    fn switch_to(&mut self, i: usize)
        requires
            i < old(self).series_lens@.len(),
        ensures
            *final(self) == old(self).switched_to(i as int),
    {
        self.v_index = i;
        self.start_index = 0;
        self.end_index = self.series_lens[i];
        self.curr_index = 0;
        self.last_index_flushed = 0;
    }

    /// Whether the clock may reveal one more point.
    pub open spec fn can_advance(self) -> bool {
        self.curr_index < self.end_index && !self.paused
    }

    /// Reveals one more point if the clock may; tells whether it did.
    pub fn advance(&mut self) -> (moved: bool)
        requires
            old(self).wf(),
        ensures
            final(self).wf(),
            moved == old(self).can_advance(),
            *final(self) == (if moved {
                CandlesGuiState { curr_index: (old(self).curr_index + 1) as usize, ..*old(self) }
            } else {
                *old(self)
            }),
    {
        if self.curr_index < self.end_index && !self.paused {
            self.curr_index = self.curr_index + 1;
            true
        } else {
            false
        }
    }

    /// Whether the chart has to be redrawn.
    pub open spec fn needs_redraw(self) -> bool {
        (self.last_index_flushed < self.curr_index || self.reloading_required)
            && self.curr_index > self.start_index
    }

    /// Decides what a frame draws and records the redraw.
    pub fn frame(&mut self) -> (action: CandlesFrameAction)
        requires
            old(self).wf(),
        ensures
            final(self).wf(),
            *final(self) == (if old(self).needs_redraw() {
                CandlesGuiState { last_index_flushed: old(self).curr_index, reloading_required: false, ..*old(self) }
            } else {
                *old(self)
            }),
            action matches CandlesFrameAction::Draw { series, start, end, visible, candle_size } ==> {
                &&& series < old(self).series_lens@.len()
                &&& start <= end <= old(self).series_lens@[series as int]
                &&& 0 < visible <= end - start
                &&& candle_size >= 1
            },
            action == (if old(self).needs_redraw() {
                CandlesFrameAction::Draw {
                    series: old(self).v_index,
                    start: old(self).start_index,
                    end: old(self).end_index,
                    visible: (old(self).curr_index - old(self).start_index) as usize,
                    candle_size: old(self).candle_size,
                }
            } else {
                CandlesFrameAction::Skip
            }),
    {
        if (self.last_index_flushed < self.curr_index || self.reloading_required)
            && self.curr_index > self.start_index {
            self.last_index_flushed = self.curr_index;
            self.reloading_required = false;
            CandlesFrameAction::Draw {
                series: self.v_index,
                start: self.start_index,
                end: self.end_index,
                visible: self.curr_index - self.start_index,
                candle_size: self.candle_size,
            }
        } else {
            CandlesFrameAction::Skip
        }
    }

    /// The window title (see `window_title`), naming the series `v_name`.
    pub fn title(&self, v_name: &str) -> (title: String)
        ensures
            title@ == window_title(v_name@, self.paused, self.candle_size, self.sample_rate,
                self.start_index, self.end_index),
    {
        get_window_title(v_name, self.paused, self.candle_size, self.sample_rate, self.start_index, self.end_index)
    }
}

/// The window title: `"{PAUSED, } {v_name}, candle size = {cs}, sample rate
/// = {sr:.1}, start index = {start}, end index = {end}"`.
pub open spec fn window_title(
    v_name: Seq<char>,
    paused: bool,
    candle_size: usize,
    sample_rate: u32,
    start_index: usize,
    end_index: usize,
) -> Seq<char> {
    paused_text(paused) + " "@ + v_name + ", candle size = "@ + decimal(candle_size as nat)
        + ", sample rate = "@ + decimal(sample_rate as nat) + ".0, start index = "@
        + decimal(start_index as nat) + ", end index = "@ + decimal(end_index as nat)
}

/// The window title (see `window_title`).
pub fn get_window_title(
    v_name: &str,
    paused: bool,
    candle_size: usize,
    sample_rate: u32,
    start_index: usize,
    end_index: usize,
) -> (title: String)
    ensures
        title@ == window_title(v_name@, paused, candle_size, sample_rate, start_index, end_index),
{
    let mut title = if paused { String::from_str("PAUSED, ") } else { String::from_str("") };
    title.append(" ");
    title.append(v_name);
    title.append(", candle size = ");
    push_decimal(&mut title, candle_size as u64);
    title.append(", sample rate = ");
    push_decimal(&mut title, sample_rate as u64);
    title.append(".0, start index = ");
    push_decimal(&mut title, start_index as u64);
    title.append(", end index = ");
    push_decimal(&mut title, end_index as u64);
    title
}

/// `→` then `←` shows again the series that was on screen, whole and from
/// its first point.
pub proof fn lemma_candles_right_then_left(s: CandlesGuiState)
    requires
        s.wf(),
        !s.key_overflows(GuiKey::Right),
    ensures
        !s.after_key(GuiKey::Right).key_overflows(GuiKey::Left),
        s.after_key(GuiKey::Right).after_key(GuiKey::Left).v_index == s.v_index,
        s.after_key(GuiKey::Right).after_key(GuiKey::Left).start_index == 0,
        s.after_key(GuiKey::Right).after_key(GuiKey::Left).end_index == s.current_len(),
        s.after_key(GuiKey::Right).after_key(GuiKey::Left).curr_index == 0,
{
    lemma_next_previous_series(s.v_index as int, s.series_lens@.len() as int);
}

/// `↑` then `↓` gives back the candle size one started from.
pub proof fn lemma_candles_up_then_down(s: CandlesGuiState)
    requires
        s.wf(),
        !s.key_overflows(GuiKey::Up),
    ensures
        !s.after_key(GuiKey::Up).key_overflows(GuiKey::Down),
        s.after_key(GuiKey::Up).after_key(GuiKey::Down).candle_size == s.candle_size,
{
}

/// The candles of a part of `len` points cut every `candle_size` points (see
/// `candles::is_candles`), numbered `first_x`, `first_x + 1`, ... on the x axis.
pub open spec fn is_numbered_candles(c: Seq<Candle>, len: int, candle_size: int, first_x: int) -> bool {
    &&& is_candles(c.map(|j: int, d: Candle| Candle { x: (j + 1) as usize, ..d }), len, candle_size)
    &&& forall|j: int| 0 <= j < c.len() ==> (#[trigger] c[j]).x == first_x + j
}

/// There are no more candles than points.
proof fn lemma_candle_count_bound(c: Seq<Candle>, len: int, candle_size: int)
    requires
        1 <= len,
        candle_size >= 1,
        is_candles(c, len, candle_size),
    ensures
        c.len() <= len,
{
    if len >= candle_size && c.len() > 0 {
        let n = c.len() as int;
        vstd::arithmetic::div_mod::lemma_mod_bound(len, candle_size);
        assert(n * candle_size == (n - 1) * candle_size + candle_size) by (nonlinear_arith);
        assert(n - 1 <= (n - 1) * candle_size) by (nonlinear_arith) requires n >= 1, candle_size >= 1;
    }
}

/// The candles of a part of `len` points, `candle_size` points each,
/// numbered from `first_x` on (see `is_numbered_candles`).
pub fn numbered_candles(len: usize, candle_size: usize, first_x: usize) -> (c: Vec<Candle>)
    requires
        1 <= len <= isize::MAX,
        candle_size >= 1,
        first_x + len <= usize::MAX,
    ensures
        is_numbered_candles(c@, len as int, candle_size as int, first_x as int),
{
    let p = parse_data(len, candle_size);
    proof { lemma_candle_count_bound(p@, len as int, candle_size as int); }
    let mut c: Vec<Candle> = Vec::new();
    let mut j: usize = 0;
    while j < p.len()
        invariant
            j <= p@.len() <= len,
            first_x + len <= usize::MAX,
            c@.len() == j,
            forall|k: int| 0 <= k < j ==> #[trigger] c@[k] == (Candle { x: (first_x + k) as usize, ..p@[k] }),
        decreases p@.len() - j,
    {
        c.push(Candle { x: first_x + j, first: p[j].first, last: p[j].last });
        j = j + 1;
    }
    proof {
        let m = c@.map(|j: int, d: Candle| Candle { x: (j + 1) as usize, ..d });
        assert forall|k: int| 0 <= k < p@.len() implies m[k] == p@[k] by {
            if len >= candle_size {
                assert(p@[k].x == k + 1);
            } else {
                assert(p@[k] == Candle { x: 1, first: 0, last: (len - 1) as usize });
            }
        }
        assert(m =~= p@);
    }
    c
}

/// The x axis of the chart of numbered candles: it leaves `candle_size`
/// free before `custom_candle_start_index` and after the last candle.
pub fn x_range(candles: &Vec<Candle>, candle_size: usize, custom_candle_start_index: usize) -> (r: (i32, i32))
    requires
        candles@.len() > 0,
        i32::MIN <= (custom_candle_start_index as i32) - (candle_size as i32) <= i32::MAX,
        i32::MIN <= (candles@[candles@.len() - 1].x as i32) + (candle_size as i32) <= i32::MAX,
    ensures
        r.0 == (custom_candle_start_index as i32) - (candle_size as i32),
        r.1 == (candles@[candles@.len() - 1].x as i32) + (candle_size as i32),
{
    let cs = candle_size as i32;
    let first = custom_candle_start_index as i32 - cs;
    let last = candles[candles.len() - 1].x as i32 + cs;
    (first, last)
}

/// Whether two states show the same part of the same series, revealed as
/// far.
pub open spec fn same_indices(s: CandlesGuiState, t: CandlesGuiState) -> bool {
    &&& t.v_index == s.v_index
    &&& t.start_index == s.start_index
    &&& t.end_index == s.end_index
    &&& t.curr_index == s.curr_index
}

/// What each key does, in terms of the state before it. With `p` the step
/// of the key (`2^k`, where `k` counts the presses of the same key right
/// before it):
/// - `+` raises the sample rate to `min(rate + p, 100000)` and `-` lowers it
///   to `max(rate - p, 1)`;
/// - `P` flips the pause; `R` brings the reveal back to the start index and
///   asks for a redraw;
/// - `↑` makes candles one point larger and `↓` one point smaller (never
///   below one point), both asking for a redraw;
/// - `→` and `←` show the next and previous series, going round, whole and
///   not yet revealed;
/// - `1` moves the start index to `max(start - p, 0)`; `2` moves it to
///   `min(start + p, end - 2)` (the reveal kept one point past it), when at
///   least three points are shown and more than one point past the start is
///   revealed; `0` moves the end index to `min(end + p, len)`; `9` moves it to
///   `max(end - p, start + 2)` (the reveal kept one point before it), when at
///   least three points are shown; each move asks for a redraw;
/// - any other key only counts as pressed.
pub proof fn lemma_candles_key_effects(s: CandlesGuiState, key: GuiKey)
    requires
        s.wf(),
        !s.key_overflows(key),
    ensures
        ({
            let t = s.after_key(key);
            let k: int = if s.previous_key == key { s.increment + 1 } else { 0 };
            let p: int = pow2(k as nat) as int;
            let n: int = s.series_lens@.len() as int;
            let len: int = s.current_len();
            &&& t.previous_key == key
            &&& t.increment == k
            &&& t.series_lens == s.series_lens
            &&& key == GuiKey::Equal ==> {
                &&& t.sample_rate == (if s.sample_rate == MAX_SAMPLE_RATE { MAX_SAMPLE_RATE as int }
                    else if s.sample_rate + p > MAX_SAMPLE_RATE { MAX_SAMPLE_RATE as int } else { s.sample_rate + p })
                &&& same_indices(s, t) && t.paused == s.paused && t.candle_size == s.candle_size
            }
            &&& key == GuiKey::Minus ==> {
                &&& t.sample_rate == (if s.sample_rate - p < 1 { 1 } else { s.sample_rate - p })
                &&& same_indices(s, t) && t.paused == s.paused && t.candle_size == s.candle_size
            }
            &&& key == GuiKey::P ==> {
                &&& t.paused == !s.paused
                &&& same_indices(s, t) && t.sample_rate == s.sample_rate && t.candle_size == s.candle_size
            }
            &&& key == GuiKey::R ==> {
                &&& t.curr_index == s.start_index && t.last_index_flushed == s.start_index
                &&& t.start_index == s.start_index && t.end_index == s.end_index && t.v_index == s.v_index
                &&& t.reloading_required
                &&& t.paused == s.paused
            }
            &&& key == GuiKey::Up ==> {
                &&& same_indices(s, t)
                &&& t.candle_size == s.candle_size + 1 && t.reloading_required
            }
            &&& key == GuiKey::Down ==> {
                &&& same_indices(s, t)
                &&& s.candle_size > 1 ==> t.candle_size == s.candle_size - 1 && t.reloading_required
                &&& s.candle_size == 1 ==> t.candle_size == 1
            }
            &&& (key == GuiKey::Right || key == GuiKey::Left) ==> {
                &&& key == GuiKey::Right ==> t.v_index == (if s.v_index + 1 == n { 0 } else { s.v_index + 1 })
                &&& key == GuiKey::Left ==> t.v_index == (if s.v_index == 0 { n - 1 } else { s.v_index - 1 })
                &&& t.start_index == 0 && t.curr_index == 0 && t.last_index_flushed == 0
                &&& t.end_index == s.series_lens@[t.v_index as int]
            }
            &&& key == GuiKey::Key1 ==> {
                &&& t.end_index == s.end_index && t.curr_index == s.curr_index && t.v_index == s.v_index
                &&& s.start_index > 0 ==> t.start_index == (if s.start_index < p { 0 } else { s.start_index - p })
                    && t.reloading_required
                &&& s.start_index == 0 ==> t.start_index == 0
            }
            &&& key == GuiKey::Key2 ==> {
                &&& t.end_index == s.end_index && t.v_index == s.v_index
                &&& (s.start_index + 2 < s.end_index && s.start_index + 1 < s.curr_index) ==> {
                    &&& t.start_index == (if s.start_index + p < s.end_index - 2 { s.start_index + p } else { s.end_index - 2 })
                    &&& t.curr_index == (if s.curr_index < t.start_index + 1 { t.start_index + 1 } else { s.curr_index as int })
                    &&& t.reloading_required
                }
                &&& !(s.start_index + 2 < s.end_index && s.start_index + 1 < s.curr_index) ==>
                    t.start_index == s.start_index && t.curr_index == s.curr_index
            }
            &&& key == GuiKey::Key0 ==> {
                &&& t.start_index == s.start_index && t.curr_index == s.curr_index && t.v_index == s.v_index
                &&& s.end_index < len ==> t.end_index == (if s.end_index + p < len { s.end_index + p } else { len })
                    && t.reloading_required
                &&& s.end_index == len ==> t.end_index == len
            }
            &&& key == GuiKey::Key9 ==> {
                &&& t.start_index == s.start_index && t.v_index == s.v_index
                &&& s.end_index > s.start_index + 2 ==> {
                    &&& t.end_index == (if s.end_index - p > s.start_index + 2 { s.end_index - p } else { s.start_index + 2 })
                    &&& t.curr_index == (if s.curr_index > t.end_index - 1 { t.end_index - 1 } else { s.curr_index as int })
                    &&& t.reloading_required
                }
                &&& s.end_index <= s.start_index + 2 ==> t.end_index == s.end_index && t.curr_index == s.curr_index
            }
            &&& (key == GuiKey::Unknown || key is Other) ==> {
                &&& same_indices(s, t) && t.paused == s.paused && t.sample_rate == s.sample_rate
                &&& t.candle_size == s.candle_size
                &&& t.reloading_required == s.reloading_required
            }
        }),
{
    vstd::arithmetic::power2::lemma_pow2_pos((if s.previous_key == key { s.increment + 1 } else { 0 }) as nat);
    let n = s.series_lens@.len() as int;
    if s.v_index + 1 == n {
        vstd::arithmetic::div_mod::lemma_mod_self_0(n);
    } else {
        vstd::arithmetic::div_mod::lemma_small_mod((s.v_index + 1) as nat, n as nat);
    }
}

/// What the caller is asked to do after a key: set the chart up again
/// exactly when the key changed the candle size, the series or the shown
/// part; restart the clock on resuming, restarting or changing series; and
/// rewrite the title for every key it reacts to.
pub proof fn lemma_candles_key_outcomes(s: CandlesGuiState, key: GuiKey)
    requires
        s.wf(),
        !s.key_overflows(key),
    ensures
        ({
            let t = s.after_key(key);
            let o = s.key_outcome(key);
            &&& o.reinit == (t.candle_size != s.candle_size || t.v_index != s.v_index
                || t.start_index != s.start_index || t.end_index != s.end_index
                || key == GuiKey::Right || key == GuiKey::Left)
            &&& o.reset_clock == ((key == GuiKey::P && s.paused) || key == GuiKey::R
                || key == GuiKey::Right || key == GuiKey::Left)
            &&& o.update_title == !(key == GuiKey::Unknown || key is Other)
        }),
{
    lemma_candles_key_effects(s, key);
    vstd::arithmetic::power2::lemma_pow2_pos((if s.previous_key == key { s.increment + 1 } else { 0 }) as nat);
}

/// What a frame does: when points were revealed since the last redraw, or a
/// key asked for a redraw, and at least one point of the shown part is
/// revealed, it draws the shown part with what is revealed of it and records
/// the redraw; otherwise it draws and changes nothing.
pub proof fn lemma_candles_frame_effects(s: CandlesGuiState)
    requires
        s.wf(),
    ensures
        s.needs_redraw() <==> ((s.last_index_flushed < s.curr_index || s.reloading_required) && s.curr_index > s.start_index),
{
}

/// A key that asks for a redraw is redrawn by the next frame as soon as a
/// point of the shown part is revealed.
pub proof fn lemma_candles_reload_then_frame(s: CandlesGuiState, key: GuiKey)
    requires
        s.wf(),
        !s.key_overflows(key),
        s.after_key(key).reloading_required,
        s.after_key(key).curr_index > s.after_key(key).start_index,
    ensures
        s.after_key(key).needs_redraw(),
{
}

} // verus!
