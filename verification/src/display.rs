//! Guest-visible display geometry.
use vstd::prelude::*;

verus! {

/// Guest-visible primary-display dimensions.
///
/// The host window is created in logical points, so the guest sees the
/// monitor's point size: a frame rendered at these dimensions is upscaled by
/// the presenter across the full physical window surface.
#[derive(Debug, Clone, Copy, PartialEq, Eq, Structural)]
pub struct DisplayMetrics {
    /// Primary-monitor width in logical points.
    pub width: i32,
    /// Primary-monitor height in logical points.
    pub height: i32,
}

/// A dimension as the metric tables report it: 0 for a degenerate (negative)
/// one.
pub open spec fn metric(pixels: int) -> int {
    if pixels < 0 {
        0
    } else {
        pixels
    }
}

/// A dimension in millimetres at 96 dots per inch (`px * 25.4 / 96`), rounded
/// half-up; 0 for a degenerate one.
pub open spec fn millimetres(pixels: int) -> int {
    (metric(pixels) * 254 + 480) / 960
}

/// The millimetre size is the exact length `px * 254 / 960` rounded half-up:
/// it lies within half a millimetre of it, and the upper half rounds up.
pub proof fn millimetres_round_half_up(pixels: int)
    requires
        pixels >= 0,
    ensures
        2 * (960 * millimetres(pixels) - 254 * pixels) <= 960,
        2 * (254 * pixels - 960 * millimetres(pixels)) < 960,
{
}

/// A wider monitor never measures fewer millimetres.
pub proof fn millimetres_monotone(narrow: int, wide: int)
    requires
        narrow <= wide,
    ensures
        millimetres(narrow) <= millimetres(wide),
{
}

fn metric_of(pixels: i32) -> (value: u64)
    ensures
        value == metric(pixels as int),
{
    if pixels < 0 {
        0
    } else {
        pixels as u64
    }
}

fn millimetres_of(pixels: i32) -> (value: u64)
    ensures
        value == millimetres(pixels as int),
{
    (metric_of(pixels) * 254 + 480) / 960
}

impl DisplayMetrics {
    /// The default desktop, 1920 by 1080. Headless runs keep it so that they
    /// stay deterministic.
    pub open spec fn default_metrics() -> DisplayMetrics {
        DisplayMetrics { width: 1920, height: 1080 }
    }

    /// Metrics of a `width` by `height` monitor.
    pub fn new(width: i32, height: i32) -> (metrics: Self)
        ensures
            metrics == (DisplayMetrics { width, height }),
    {
        DisplayMetrics { width, height }
    }

    /// Screen width as the unsigned value that the metric tables return.
    pub fn width_metric(self) -> (value: u64)
        ensures
            value == metric(self.width as int),
    {
        metric_of(self.width)
    }

    /// Screen height as the unsigned value that the metric tables return.
    pub fn height_metric(self) -> (value: u64)
        ensures
            value == metric(self.height as int),
    {
        metric_of(self.height)
    }

    /// `HORZSIZE`: screen width in millimetres at the 96-dpi baseline.
    pub fn width_mm(self) -> (value: u64)
        ensures
            value == millimetres(self.width as int),
    {
        millimetres_of(self.width)
    }

    /// `VERTSIZE`: screen height in millimetres at the 96-dpi baseline.
    pub fn height_mm(self) -> (value: u64)
        ensures
            value == millimetres(self.height as int),
    {
        millimetres_of(self.height)
    }
}

impl Default for DisplayMetrics {
    fn default() -> (metrics: Self)
        ensures
            metrics == DisplayMetrics::default_metrics(),
    {
        DisplayMetrics { width: 1920, height: 1080 }
    }
}

} // verus!
