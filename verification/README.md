# plot_graph

Charts of data series: line charts, bar charts, liquidity charts and
candlestick charts written to PNG files, and interactive viewers that reveal a
series point after point in a window.

- `src/` is the verified library. It holds every decision that does not
  involve floating point: how a series is cut into candles, where each candle
  and bar stands, which colour each bar or line takes, which inputs are
  refused and with which message, file names, window titles, and the state
  machine that the keyboard and the clock drive in the interactive viewers.
- `app/` draws with `plotters`, opens windows with `minifb`, keeps time,
  generates random series with `rand`, and computes the floating-point parts
  (value ranges, candle prices, candle widths).
- `tests/` runs the library on concrete inputs.
