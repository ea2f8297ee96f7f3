use plot_graph::candles::Candle;
use plot_graph::interactive_candles::{numbered_candles, x_range};
use plot_graph::interactive_bar_chart;
use plot_graph::interactive_candles::{CandlesFrameAction, CandlesGuiState};
use plot_graph::interactive_candlestick_chart;
use plot_graph::interactive_chart::{get_instructions, ChartType, FrameAction, GuiKey, GuiState, KeyOutcome};

fn outcome(reset_clock: bool, update_title: bool) -> KeyOutcome {
    KeyOutcome { reset_clock, update_title }
}

#[test]
fn viewer_starts_on_first_series() {
    let s = GuiState::new(ChartType::Bar, vec![5, 8, 3], None);
    assert_eq!((s.v_index, s.start_index, s.curr_index, s.end_index), (0, 0, 0, 5));
    assert_eq!((s.candle_size, s.sample_rate, s.paused), (10, 60, false));
    let s = GuiState::new(ChartType::Candlestick, vec![5], Some(4));
    assert_eq!(s.candle_size, 4);
}

#[test]
fn held_key_doubles_its_step() {
    let mut s = GuiState::new(ChartType::Bar, vec![5], None);
    assert_eq!(s.handle_key(GuiKey::Equal), outcome(false, true));
    assert_eq!(s.sample_rate, 61);
    s.handle_key(GuiKey::Equal);
    assert_eq!(s.sample_rate, 63);
    s.handle_key(GuiKey::Equal);
    assert_eq!(s.sample_rate, 67);
    s.handle_key(GuiKey::Minus);
    assert_eq!(s.sample_rate, 66);
    s.handle_key(GuiKey::Minus);
    assert_eq!(s.sample_rate, 64);
}

#[test]
fn sample_rate_stays_in_range() {
    let mut s = GuiState::new(ChartType::Bar, vec![5], None);
    for _ in 0..20 {
        s.handle_key(GuiKey::Equal);
    }
    assert_eq!(s.sample_rate, 100000);
    for _ in 0..20 {
        s.handle_key(GuiKey::Minus);
    }
    assert_eq!(s.sample_rate, 1);
}

#[test]
fn series_go_round() {
    let mut s = GuiState::new(ChartType::Bar, vec![5, 8, 3], None);
    assert_eq!(s.handle_key(GuiKey::Right), outcome(true, true));
    assert_eq!((s.v_index, s.end_index), (1, 8));
    assert!(s.chart_initialization_required);
    s.handle_key(GuiKey::Left);
    assert_eq!((s.v_index, s.end_index), (0, 5));
    s.handle_key(GuiKey::Left);
    assert_eq!((s.v_index, s.end_index), (2, 3));
    s.handle_key(GuiKey::Right);
    assert_eq!(s.v_index, 0);
}

#[test]
fn reveal_and_redraw() {
    let mut s = GuiState::new(ChartType::Bar, vec![5, 8], None);
    assert_eq!(s.frame(), FrameAction::Skip);
    assert!(s.advance());
    assert!(s.advance());
    assert_eq!(
        s.frame(),
        FrameAction::Draw { reinit: false, series: 0, start: 0, end: 5, visible: 2, candle_size: 10 }
    );
    assert_eq!(s.frame(), FrameAction::Skip);
    for _ in 0..3 {
        assert!(s.advance());
    }
    assert!(!s.advance());
    assert_eq!(s.curr_index, 5);
    s.handle_key(GuiKey::Right);
    assert!(s.advance());
    assert_eq!(
        s.frame(),
        FrameAction::Draw { reinit: true, series: 1, start: 0, end: 8, visible: 1, candle_size: 10 }
    );
}

#[test]
fn pause_stops_the_reveal() {
    let mut s = GuiState::new(ChartType::Bar, vec![5], None);
    assert_eq!(s.handle_key(GuiKey::P), outcome(false, true));
    assert!(!s.advance());
    assert_eq!(s.handle_key(GuiKey::P), outcome(true, true));
    assert!(s.advance());
}

#[test]
fn restart_goes_back_to_start() {
    let mut s = GuiState::new(ChartType::Bar, vec![9], None);
    for _ in 0..6 {
        s.advance();
    }
    s.handle_key(GuiKey::Key2);
    assert_eq!((s.start_index, s.curr_index), (1, 6));
    assert_eq!(s.handle_key(GuiKey::R), outcome(true, true));
    assert_eq!((s.start_index, s.curr_index, s.last_index_flushed), (1, 1, 1));
    assert!(s.chart_reloading_required);
    assert_eq!(s.frame(), FrameAction::Skip);
}

#[test]
fn start_and_end_indices_move() {
    let mut s = GuiState::new(ChartType::Bar, vec![5], None);
    for _ in 0..3 {
        s.advance();
    }
    s.handle_key(GuiKey::Key2);
    assert_eq!((s.start_index, s.curr_index), (1, 3));
    s.handle_key(GuiKey::Key2);
    assert_eq!((s.start_index, s.curr_index), (3, 4));
    s.handle_key(GuiKey::Key2);
    assert_eq!(s.start_index, 3);
    s.handle_key(GuiKey::Key1);
    assert_eq!(s.start_index, 2);
    s.handle_key(GuiKey::Key1);
    assert_eq!(s.start_index, 0);
    s.handle_key(GuiKey::Key9);
    assert_eq!((s.end_index, s.curr_index), (4, 3));
    s.handle_key(GuiKey::Key9);
    assert_eq!((s.end_index, s.curr_index), (2, 1));
    s.handle_key(GuiKey::Key0);
    assert_eq!(s.end_index, 3);
    s.handle_key(GuiKey::Key0);
    assert_eq!(s.end_index, 5);
    assert!(s.chart_initialization_required && s.chart_reloading_required);
}

#[test]
fn candle_size_keys() {
    let mut bar = GuiState::new(ChartType::Bar, vec![5], None);
    assert_eq!(bar.handle_key(GuiKey::Up), outcome(false, true));
    assert_eq!(bar.candle_size, 10);
    let mut c = GuiState::new(ChartType::Candlestick, vec![5], Some(2));
    c.handle_key(GuiKey::Up);
    assert_eq!(c.candle_size, 3);
    c.handle_key(GuiKey::Down);
    c.handle_key(GuiKey::Down);
    c.handle_key(GuiKey::Down);
    assert_eq!(c.candle_size, 1);
}

#[test]
fn other_keys_leave_the_title() {
    let mut s = GuiState::new(ChartType::Bar, vec![5], None);
    assert_eq!(s.handle_key(GuiKey::Other(3)), outcome(false, false));
    assert_eq!(s.previous_key, GuiKey::Other(3));
    s.handle_key(GuiKey::Other(3));
    assert_eq!(s.increment, 1);
}

#[test]
fn held_key_count_overflows() {
    let mut s = GuiState::new(ChartType::Bar, vec![5], None);
    s.handle_key(GuiKey::Equal);
    assert!(!s.key_would_overflow(GuiKey::Equal));
    s.increment = u32::MAX;
    assert!(s.key_would_overflow(GuiKey::Equal));
    assert!(!s.key_would_overflow(GuiKey::Minus));
    s.increment = 200;
    assert!(s.key_would_overflow(GuiKey::Equal));
    assert!(!s.key_would_overflow(GuiKey::P));
}

#[test]
fn window_titles() {
    let s = GuiState::new(ChartType::Bar, vec![5], None);
    assert_eq!(s.title(), "sample rate = 60.0, start index = 0, end index = 5");
    assert_eq!(
        interactive_bar_chart::get_window_title(true, 100000, 3, 12),
        "PAUSED, sample rate = 100000.0, start index = 3, end index = 12"
    );
    assert_eq!(
        interactive_candlestick_chart::get_window_title(false, 10, 60, 0, 1000),
        "candle size = 10, sample rate = 60.0, start index = 0, end index = 1000"
    );
}

#[test]
fn instructions() {
    assert_eq!(
        get_instructions(ChartType::Candlestick),
        "Instructions:\n  ←/→=Previous/next series\n  ↑/↓=Adjust candle size\n  +/-=Adjust sample rate\n  1/2=Adjust start index\n  9/0=Adjust end index\n  P=Start/Stop\n  R=Restart\n  <Esc>=Exit\n"
    );
    assert_eq!(
        get_instructions(ChartType::Bar),
        "Instructions:\n  ←/→=Previous/next series\n  +/-=Adjust sample rate\n  1/2=Adjust start index\n  9/0=Adjust end index\n  P=Start/Stop\n  R=Restart\n  <Esc>=Exit\n"
    );
}

#[test]
fn interactive_chart_axes() {
    assert_eq!(interactive_bar_chart::x_range(10, 3), (3, 13));
    assert_eq!(interactive_bar_chart::x_label_count(30), 11);
    assert_eq!(interactive_bar_chart::x_label_count(3), 3);
    let b = interactive_bar_chart::revealed_bars(10, 4, 3);
    assert_eq!(b.len(), 4);
    assert_eq!(b[3].x, 6);
    assert_eq!(interactive_candlestick_chart::x_range(10, 3, 5), (2, 18));
    let (c, n) = interactive_candlestick_chart::revealed_candles(10, 4, 3, 5);
    assert_eq!(c.len(), 2);
    assert_eq!((c[1].x, c[1].first, c[1].last), (9, 3, 3));
    assert_eq!(n, 4);
}

#[test]
fn older_viewer() {
    let mut s = CandlesGuiState::new(vec![9, 4], 3);
    assert_eq!(s.title("ABC/DEF"), " ABC/DEF, candle size = 3, sample rate = 60.0, start index = 0, end index = 9");
    // the start index moves forward only past revealed points
    let o = s.handle_key(plot_graph::interactive_chart::GuiKey::Key2);
    assert!(!o.reinit);
    assert_eq!(s.start_index, 0);
    for _ in 0..4 {
        s.advance();
    }
    let o = s.handle_key(GuiKey::Key2);
    assert!(o.reinit);
    assert_eq!(s.start_index, 2);
    assert_eq!(
        s.frame(),
        CandlesFrameAction::Draw { series: 0, start: 2, end: 9, visible: 2, candle_size: 3 }
    );
    s.handle_key(GuiKey::P);
    assert_eq!(s.title("ABC/DEF"), "PAUSED,  ABC/DEF, candle size = 3, sample rate = 60.0, start index = 2, end index = 9");
    s.handle_key(GuiKey::Key9);
    assert_eq!(s.end_index, 8);
    s.handle_key(GuiKey::Key9);
    assert_eq!(s.end_index, 6);
    s.handle_key(GuiKey::Key9);
    assert_eq!((s.end_index, s.curr_index), (4, 3));
    let o = s.handle_key(GuiKey::Up);
    assert!(o.reinit);
    assert_eq!(s.candle_size, 4);
    s.handle_key(GuiKey::Right);
    assert_eq!((s.v_index, s.start_index, s.end_index), (1, 0, 4));
}

#[test]
fn older_viewer_end_index_underflow() {
    let mut s = CandlesGuiState::new(vec![9], 3);
    // a held key with a step past the end index would underflow it
    s.previous_key = GuiKey::Key9;
    s.increment = 3;
    assert!(s.key_would_overflow(GuiKey::Key9));
    s.increment = 2;
    assert!(!s.key_would_overflow(GuiKey::Key9));
    s.handle_key(GuiKey::Key9);
    assert_eq!(s.end_index, 2);
}

#[test]
fn older_viewer_candles_numbered_from_start() {
    let c = numbered_candles(8, 3, 5);
    assert_eq!(
        c,
        vec![
            Candle { x: 5, first: 0, last: 3 },
            Candle { x: 6, first: 3, last: 6 },
            Candle { x: 7, first: 6, last: 7 }
        ]
    );
    assert_eq!(x_range(&c, 3, 4), (1, 10));
}

#[test]
fn right_presses_go_round() {
    let mut s = GuiState::new(ChartType::Bar, vec![5, 8, 3], None);
    for _ in 0..3 {
        s.handle_key(GuiKey::Right);
    }
    assert_eq!((s.v_index, s.start_index, s.end_index, s.curr_index), (0, 0, 5, 0));
}

#[test]
fn title_shows_pause_parity() {
    let mut s = GuiState::new(ChartType::Candlestick, vec![5], None);
    for presses in 1..5 {
        s.handle_key(GuiKey::P);
        assert_eq!(s.title().starts_with("PAUSED, "), presses % 2 == 1);
    }
}

#[test]
fn two_points_stay_shown() {
    let mut s = GuiState::new(ChartType::Bar, vec![2, 4], None);
    for key in [GuiKey::Key9, GuiKey::Key2, GuiKey::Key9, GuiKey::Right, GuiKey::Key9, GuiKey::Key9, GuiKey::Key2] {
        s.handle_key(key);
        assert!(s.start_index + 2 <= s.end_index);
        assert!(s.end_index <= s.series_lens[s.v_index]);
    }
}
