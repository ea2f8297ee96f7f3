//! Charts of data series: the layout decisions behind line, bar and
//! candlestick charts, and the state machine that drives their
//! interactive viewers.

pub mod helpers;
pub mod text;
pub mod colors;
pub mod interactive_chart;
pub mod candlestick_chart;
pub mod candles;
pub mod plot;
pub mod bar_chart;
pub mod liquidity_plot;
pub mod base_chart;
pub mod base_plot;
pub mod interactive_bar_chart;
pub mod interactive_candlestick_chart;
pub mod interactive_candles;
