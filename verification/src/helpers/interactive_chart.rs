//! Settings of the interactive viewers.

use vstd::prelude::*;

verus! {

/// Width of the window, in pixels.
pub const W: usize = 800;

/// Height of the window, in pixels.
pub const H: usize = 600;

/// Margin around the chart, in pixels.
pub const MARGIN: u32 = 20;

/// Size of the areas that hold the axis labels, in pixels.
pub const LABEL: u32 = 50;

/// Number of points revealed per second when a viewer starts.
pub const SAMPLE_RATE: u32 = 60;

/// Font family of the captions.
pub const DEFAULT_FONT_FAMILY: &'static str = "sans-serif";

/// Font size of the captions.
pub const DEFAULT_FONT_SIZE: u32 = 40;

} // verus!
