//! Settings of the charts rendered to image files.

use vstd::prelude::*;

verus! {

/// Width of an image, in pixels.
pub const WIDTH: u32 = 1280;

/// Height of an image, in pixels.
pub const HEIGHT: u32 = 960;

/// Size of the areas that hold the axis labels, in pixels.
pub const LABEL_AREA_SIZE: u32 = 60;

/// Margin around a chart, in pixels.
pub const MARGIN: u32 = 5;

/// Font family of the captions.
pub const DEFAULT_FONT_FAMILY: &'static str = "sans-serif";

/// Font size of the captions.
pub const DEFAULT_FONT_SIZE: u32 = 50;

/// Directory where the images are written.
pub const DEFAULT_DIR: &'static str = "plots-output";

} // verus!
