//! Settings shared by the charts, file naming, the pixel buffer of the
//! interactive viewers and the colour palettes.

pub mod chart;
pub mod interactive_chart;

use vstd::prelude::*;

verus! {

/// Path of the image file that a chart called `file_name` is written to:
/// `"{DEFAULT_DIR}/{file_name}.png"`.
pub open spec fn file_path(file_name: Seq<char>) -> Seq<char> {
    chart::DEFAULT_DIR@ + "/"@ + file_name + ".png"@
}

/// `"{DEFAULT_DIR}/{file_name}.png"`.
pub fn get_file_path(file_name: &str) -> (path: String)
    ensures
        path@ == file_path(file_name@),
{
    let mut path = String::from_str(chart::DEFAULT_DIR);
    path.append("/");
    path.append(file_name);
    path.append(".png");
    path
}

/// A `width * height` frame of 32-bit pixels, the drawing surface of the
/// interactive viewers.
pub struct BufferWrapper(Vec<u32>);

impl View for BufferWrapper {
    type V = Seq<u32>;

    closed spec fn view(&self) -> Seq<u32> {
        self.0@
    }
}

impl BufferWrapper {
    /// A black frame (every pixel 0) of `width * height` pixels.
    pub fn new(width: usize, height: usize) -> (buf: Self)
        requires
            width * height <= usize::MAX,
        ensures
            buf@.len() == width * height,
            forall|i: int| 0 <= i < buf@.len() ==> buf@[i] == 0,
    {
        let n = width * height;
        let mut pixels: Vec<u32> = Vec::with_capacity(n);
        let mut k: usize = 0;
        while k < n
            invariant
                k <= n,
                pixels@.len() == k,
                forall|i: int| 0 <= i < k ==> pixels@[i] == 0,
            decreases n - k,
        {
            pixels.push(0);
            k = k + 1;
        }
        BufferWrapper(pixels)
    }

    /// The pixels, row after row.
    pub fn as_slice(&self) -> (pixels: &[u32])
        ensures
            pixels@ == self@,
    {
        self.0.as_slice()
    }

    /// The pixels, row after row, to be drawn into.
    pub fn as_mut_slice(&mut self) -> (pixels: &mut [u32])
        ensures
            pixels@ == old(self)@,
            final(pixels)@ == final(self)@,
    {
        self.0.as_mut_slice()
    }
}

/// An RGB colour.
#[derive(Clone, Copy, Debug, PartialEq, Eq, Structural)]
pub struct Rgb {
    pub r: u8,
    pub g: u8,
    pub b: u8,
}

/// The colour of a rising candle: RGB (98, 209, 61).
pub fn green() -> (c: Rgb)
    ensures
        c == (Rgb { r: 98, g: 209, b: 61 }),
{
    Rgb { r: 98, g: 209, b: 61 }
}

/// The colour of a falling candle: RGB (209, 61, 61).
pub fn red() -> (c: Rgb)
    ensures
        c == (Rgb { r: 209, g: 61, b: 61 }),
{
    Rgb { r: 209, g: 61, b: 61 }
}

/// The continuous colour schemes the charts sample.
#[derive(Clone, Copy, Debug, PartialEq, Eq, Structural)]
pub enum Palette {
    /// The "cool" sequential scheme (cyan to magenta).
    Cool,
    /// The "sinebow" cyclical scheme.
    Sinebow,
}

/// Why a chart cannot be drawn.
#[derive(Clone, Copy, Debug, PartialEq, Eq, Structural)]
pub enum PlotError {
    /// The series is empty.
    EmptySeries,
    /// The list of series is empty or holds an empty series.
    EmptyOrContainsEmpty,
    /// There are not as many captions as series.
    CaptionCountMismatch,
}

/// The message of each error.
pub open spec fn error_message(e: PlotError) -> Seq<char> {
    match e {
        PlotError::EmptySeries => "ERROR: Vector is empty!"@,
        PlotError::EmptyOrContainsEmpty => "ERROR: Vector is empty or contains an empty element!"@,
        PlotError::CaptionCountMismatch => "ERROR: Vector of market names must be the same length as the vector of vectors!"@,
    }
}

impl PlotError {
    /// The message that reports the error.
    pub fn message(&self) -> (m: String)
        ensures
            m@ == error_message(*self),
    {
        match self {
            PlotError::EmptySeries => String::from_str("ERROR: Vector is empty!"),
            PlotError::EmptyOrContainsEmpty => String::from_str(
                "ERROR: Vector is empty or contains an empty element!",
            ),
            PlotError::CaptionCountMismatch => String::from_str(
                "ERROR: Vector of market names must be the same length as the vector of vectors!",
            ),
        }
    }
}

/// Whether a list of series, given by their lengths, is empty or holds an
/// empty series.
pub open spec fn empty_or_contains_empty(lens: Seq<usize>) -> bool {
    lens.len() == 0 || exists|i: int| 0 <= i < lens.len() && lens[i] == 0
}

/// Whether the list of series, given by their lengths, is empty or holds an
/// empty series.
pub fn is_empty_or_contains_empty(lens: &Vec<usize>) -> (b: bool)
    ensures
        b == empty_or_contains_empty(lens@),
{
    if lens.len() == 0 {
        return true;
    }
    let mut i: usize = 0;
    while i < lens.len()
        invariant
            i <= lens@.len(),
            forall|k: int| 0 <= k < i ==> lens@[k] != 0,
        decreases lens@.len() - i,
    {
        if lens[i] == 0 {
            return true;
        }
        i = i + 1;
    }
    false
}

/// The verdict on a list of series (given by their lengths) and their
/// captions before they are charted side by side: the list must not be
/// empty nor hold an empty series, and there must be one caption per
/// series.
pub open spec fn series_check(lens: Seq<usize>, n_captions: usize) -> Result<(), PlotError> {
    if empty_or_contains_empty(lens) {
        Err(PlotError::EmptyOrContainsEmpty)
    } else if lens.len() != n_captions {
        Err(PlotError::CaptionCountMismatch)
    } else {
        Ok(())
    }
}

/// Checks a list of series (given by their lengths) and their captions
/// (see `series_check`).
pub fn validate_series(lens: &Vec<usize>, n_captions: usize) -> (r: Result<(), PlotError>)
    ensures
        r == series_check(lens@, n_captions),
{
    if is_empty_or_contains_empty(lens) {
        return Err(PlotError::EmptyOrContainsEmpty);
    }
    if lens.len() != n_captions {
        return Err(PlotError::CaptionCountMismatch);
    }
    Ok(())
}

/// The length of the longest series.
pub fn max_len(lens: &Vec<usize>) -> (m: usize)
    requires
        lens@.len() > 0,
    ensures
        exists|i: int| 0 <= i < lens@.len() && lens@[i] == m,
        forall|i: int| 0 <= i < lens@.len() ==> lens@[i] <= m,
{
    let mut m = lens[0];
    let mut i: usize = 1;
    while i < lens.len()
        invariant
            1 <= i <= lens@.len(),
            exists|k: int| 0 <= k < i && lens@[k] == m,
            forall|k: int| 0 <= k < i ==> lens@[k] <= m,
        decreases lens@.len() - i,
    {
        if lens[i] > m {
            m = lens[i];
        }
        i = i + 1;
    }
    m
}

} // verus!
