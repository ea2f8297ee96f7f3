use plot_graph::bar_chart;
use plot_graph::base_chart;
use plot_graph::base_plot;
use plot_graph::candles;
use plot_graph::colors::{sample_colors, sample_request, ColorRequest};
use plot_graph::candlestick_chart::{self, Candle};
use plot_graph::helpers::{self, BufferWrapper, Palette, PlotError, Rgb};
use plot_graph::liquidity_plot;
use plot_graph::plot;
use plot_graph::text::decimal_string;

fn candle(x: isize, first: usize, last: usize) -> Candle {
    Candle { x, first, last }
}

fn old_candle(x: usize, first: usize, last: usize) -> candles::Candle {
    candles::Candle { x, first, last }
}

fn rgb(c: colorous::Color) -> Rgb {
    Rgb { r: c.r, g: c.g, b: c.b }
}

#[test]
fn file_path_is_in_output_dir() {
    assert_eq!(helpers::get_file_path("test_bar_chart"), "plots-output/test_bar_chart.png");
    assert_eq!(helpers::get_file_path(""), "plots-output/.png");
}

#[test]
fn buffer_starts_black() {
    let buf = BufferWrapper::new(4, 3);
    assert_eq!(buf.as_slice().len(), 12);
    assert!(buf.as_slice().iter().all(|p| *p == 0));
    let empty = BufferWrapper::new(0, 600);
    assert_eq!(empty.as_slice().len(), 0);
}

#[test]
fn buffer_can_be_drawn_into() {
    let mut buf = BufferWrapper::new(2, 2);
    buf.as_mut_slice()[3] = 0x00ff_00ff;
    assert_eq!(buf.as_slice(), &[0, 0, 0, 0x00ff_00ff]);
}

#[test]
fn decimal_strings() {
    assert_eq!(decimal_string(0), "0");
    assert_eq!(decimal_string(7), "7");
    assert_eq!(decimal_string(60), "60");
    assert_eq!(decimal_string(100000), "100000");
    assert_eq!(decimal_string(u64::MAX), u64::MAX.to_string());
}

#[test]
fn error_messages() {
    assert_eq!(PlotError::EmptySeries.message(), "ERROR: Vector is empty!");
    assert_eq!(
        PlotError::EmptyOrContainsEmpty.message(),
        "ERROR: Vector is empty or contains an empty element!"
    );
    assert_eq!(
        PlotError::CaptionCountMismatch.message(),
        "ERROR: Vector of market names must be the same length as the vector of vectors!"
    );
}

#[test]
fn candle_colours() {
    assert_eq!(helpers::green(), Rgb { r: 98, g: 209, b: 61 });
    assert_eq!(helpers::red(), Rgb { r: 209, g: 61, b: 61 });
}

#[test]
fn candlestick_candles_share_their_ends() {
    // [1.5, 4., 2., 5., 10., 12., 3.] in candles of 3 points
    let c = candlestick_chart::parse_data(7, 3, None);
    assert_eq!(c, vec![candle(1, 0, 3), candle(4, 3, 6), candle(7, 6, 6)]);
}

#[test]
fn candlestick_candles_of_a_short_series() {
    let c = candlestick_chart::parse_data(2, 5, None);
    assert_eq!(c, vec![candle(1, 0, 1)]);
    let c = candlestick_chart::parse_data(1, 1, Some(0));
    assert_eq!(c, vec![candle(0, 0, 0)]);
}

#[test]
fn candlestick_candles_from_a_custom_start() {
    let c = candlestick_chart::parse_data(6, 2, Some(10));
    assert_eq!(c, vec![candle(10, 0, 2), candle(12, 2, 4), candle(14, 4, 5)]);
    let c = candlestick_chart::parse_data(6, 3, Some(10));
    assert_eq!(c, vec![candle(10, 0, 3), candle(13, 3, 5)]);
}

#[test]
fn candlestick_layout() {
    let l = candlestick_chart::plot_layout(7, 3, None).ok().unwrap();
    assert_eq!(l.candles.len(), 3);
    assert_eq!((l.x_start, l.x_end), (-2, 10));
    assert!(matches!(candlestick_chart::plot_layout(0, 3, None), Err(PlotError::EmptySeries)));
}

#[test]
fn lib_test_plot_candles() {
    // a series of 1000 points in candles of 10
    let l = candlestick_chart::plot_layout(1000, 10, None).ok().unwrap();
    assert_eq!(l.candles.len(), 100);
    assert_eq!(l.candles[0], candle(1, 0, 10));
    assert_eq!(l.candles[99], candle(991, 990, 999));
    assert_eq!((l.x_start, l.x_end), (-9, 1001));
    for j in 0..99 {
        assert_eq!(l.candles[j].last, l.candles[j + 1].first);
    }
}

#[test]
fn old_candles() {
    assert_eq!(candles::parse_data(7, 3), vec![old_candle(1, 0, 3), old_candle(2, 3, 6)]);
    assert_eq!(candles::parse_data(8, 3), vec![old_candle(1, 0, 3), old_candle(2, 3, 6), old_candle(3, 6, 7)]);
    assert_eq!(candles::parse_data(9, 3), vec![old_candle(1, 0, 3), old_candle(2, 3, 6)]);
    assert_eq!(candles::parse_data(3, 3), vec![]);
    assert_eq!(candles::parse_data(2, 3), vec![old_candle(1, 0, 1)]);
}

#[test]
fn old_candles_layout() {
    let l = candles::plot_layout(7, 3).ok().unwrap();
    assert_eq!((l.x_start, l.x_end), (0, 3));
    assert!(matches!(candles::plot_layout(0, 3), Err(PlotError::EmptySeries)));
}

#[test]
fn plot_test_plot_candles() {
    // [1.5, 4., 2., 5., 10., 12., 3.]: one candle per pair of points
    let c = plot::parse_data(7);
    assert_eq!(c.len(), 6);
    for i in 0..6 {
        assert_eq!(c[i], old_candle(i + 1, i, i + 1));
    }
    let l = plot::run_layout(7);
    assert_eq!((l.x_start, l.x_end), (0, 7));
    assert_eq!(plot::parse_data(0), vec![]);
    assert_eq!(plot::parse_data(1), vec![]);
}

#[test]
fn series_checks() {
    assert_eq!(helpers::validate_series(&vec![], 0), Err(PlotError::EmptyOrContainsEmpty));
    assert_eq!(helpers::validate_series(&vec![3, 0, 2], 3), Err(PlotError::EmptyOrContainsEmpty));
    assert_eq!(helpers::validate_series(&vec![3, 1, 2], 2), Err(PlotError::CaptionCountMismatch));
    assert_eq!(helpers::validate_series(&vec![3, 1, 2], 3), Ok(()));
}

#[test]
fn test_liquidity_plot() {
    // four markets of four points each, captions "Market 1".."Market 4"
    let lens = vec![4, 4, 4, 4];
    let ls = bar_chart::plot_layout(&lens, 4, None, None).ok().unwrap();
    assert_eq!(ls.len(), 4);
    for l in &ls {
        assert_eq!((l.x_start, l.x_end, l.x_labels), (0, 4, 4));
        assert_eq!(l.bars.len(), 4);
        for (k, b) in l.bars.iter().enumerate() {
            assert_eq!(b.x, k);
            assert_eq!(b.color.rgb(), rgb(colorous::COOL.eval_rational(k, 4)));
            assert_eq!(b.color.request(), ColorRequest { palette: Palette::Cool, i: k, n: 4 });
        }
    }
    assert!(matches!(bar_chart::plot_layout(&lens, 3, None, None), Err(PlotError::CaptionCountMismatch)));
}

#[test]
fn bar_chart_with_custom_start_and_labels() {
    let ls = bar_chart::plot_layout(&vec![20], 1, Some(5), Some(4)).ok().unwrap();
    assert_eq!((ls[0].x_start, ls[0].x_end, ls[0].x_labels), (5, 25, 4));
    assert_eq!(ls[0].bars[19].x, 24);
    let ls = bar_chart::plot_layout(&vec![20], 1, None, None).ok().unwrap();
    assert_eq!(ls[0].x_labels, 11);
}

#[test]
fn bars_follow_the_palette() {
    let b = bar_chart::bars(3, 5, 7, Palette::Sinebow);
    assert_eq!(b.len(), 3);
    for k in 0..3 {
        assert_eq!(b[k].x, 7 + k);
        assert_eq!(b[k].color.rgb(), rgb(colorous::SINEBOW.eval_rational(k, 5)));
        assert_eq!(b[k].color.request(), ColorRequest { palette: Palette::Sinebow, i: k, n: 5 });
    }
    // the colours are not all the same
    assert_ne!(b[0].color.rgb(), b[2].color.rgb());
}

#[test]
fn liquidity_bars() {
    let bs = liquidity_plot::plot_layout(&vec![4, 2], 2).ok().unwrap();
    assert_eq!(bs[1].len(), 2);
    assert_eq!(bs[1][1].x, 1);
    assert_eq!(bs[1][1].color.rgb(), rgb(colorous::SINEBOW.eval_rational(1, 2)));
    assert_eq!(bs[1][1].color.request(), ColorRequest { palette: Palette::Sinebow, i: 1, n: 2 });
    assert_eq!(liquidity_plot::x_range(4), (0, 4));
    assert!(matches!(liquidity_plot::plot_layout(&vec![4, 0], 2), Err(PlotError::EmptyOrContainsEmpty)));
}

#[test]
fn test_base_plot() {
    // [1.5, 4., 2., 5., 10., 12., 3.]
    assert_eq!(base_chart::single_series_x_end(7), Ok(6));
    assert_eq!(base_chart::single_series_x_end(0), Err(PlotError::EmptySeries));
    assert_eq!(base_plot::single_series_x_end(7), 6);
}

#[test]
fn test_base_plot_multiple_series() {
    // nine series of ten points each
    let lens = vec![10usize; 9];
    let l = base_chart::multiple_series_layout(&lens).ok().unwrap();
    assert_eq!(l.x_end, 9);
    assert_eq!(l.colors.len(), 9);
    for i in 0..9 {
        assert_eq!(l.colors[i].rgb(), rgb(colorous::SINEBOW.eval_rational(i, 9)));
        assert_eq!(l.colors[i].request(), ColorRequest { palette: Palette::Sinebow, i, n: 9 });
    }
    assert!(matches!(base_chart::multiple_series_layout(&vec![]), Err(PlotError::EmptyOrContainsEmpty)));
}

#[test]
fn longest_series_sets_the_axis() {
    let l = base_plot::multiple_series_layout(&vec![3, 0, 8, 5]);
    assert_eq!(l.x_end, 7);
    assert_eq!(helpers::max_len(&vec![3, 9, 2]), 9);
}

#[test]
fn candles_from_another_start_are_shifted() {
    let a = candlestick_chart::parse_data(10, 4, Some(3));
    let b = candlestick_chart::parse_data(10, 4, Some(20));
    assert_eq!(a.len(), b.len());
    for (ca, cb) in a.iter().zip(b.iter()) {
        assert_eq!((ca.first, ca.last), (cb.first, cb.last));
        assert_eq!(cb.x - ca.x, 17);
    }
    assert_eq!(candlestick_chart::parse_data(10, 4, None), candlestick_chart::parse_data(10, 4, Some(1)));
}

#[test]
fn placed_bars_keep_their_colours() {
    let colors = sample_colors(2, 3, Palette::Cool);
    assert_eq!(colors[0].rgb(), rgb(colorous::COOL.eval_rational(0, 3)));
    assert_eq!(colors[1].rgb(), rgb(colorous::COOL.eval_rational(1, 3)));
    assert_eq!(colors[1].request(), sample_request(Palette::Cool, 1, 3));
    let b = bar_chart::place_bars(10, &colors);
    assert_eq!(b, vec![bar_chart::Bar { x: 10, color: colors[0] }, bar_chart::Bar { x: 11, color: colors[1] }]);
}
