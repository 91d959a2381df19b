use vstd::prelude::*;

verus! {

/// Top edge of the acceleration bars, in pixels.
pub const BAR_TOP: i32 = 22;

/// Horizontal gap between a bar's label and the bar.
pub const BAR_SPACE: i32 = 20;

/// Width of a bar.
pub const BAR_WIDTH: u32 = 16;

/// Height of a bar.
pub const BAR_HEIGHT: u32 = 40;

/// Half the height of a bar: the filled part's reach above or below the
/// centre line at full scale.
pub const BAR_HALF_HEIGHT: i32 = 20;

/// The centre line of the bars, where zero acceleration lies.
pub const BAR_CENTER: i32 = BAR_TOP + BAR_HALF_HEIGHT;

/// Raw accelerometer reading of one g at the full-resolution range.
pub const CONVERT_G: i32 = 16384;

/// The filled part of one acceleration bar: its left edge, its top edge and
/// its height; its width is `BAR_WIDTH`.
#[derive(Debug, Clone, Copy, PartialEq, Eq, Structural)]
pub struct BarFill {
    pub left: i32,
    pub top: i32,
    pub height: u32,
}

pub open spec fn abs(v: int) -> int {
    if v < 0 {
        -v
    } else {
        v
    }
}

/// How far the fill reaches from the centre line for a reading: half the
/// bar per g, rounded down.
pub open spec fn fill_height(value: int) -> int {
    BAR_HALF_HEIGHT * abs(value) / CONVERT_G as int
}

/// Where the filled part of a bar goes, for a bar whose label stands at
/// `position`: below the centre line for a positive reading, above it for a
/// negative one.
pub fn bar_fill(value: i16, position: i32) -> (r: BarFill)
    requires
        position <= i32::MAX - BAR_SPACE,
    ensures
        r.left == position + BAR_SPACE,
        r.height == fill_height(value as int),
        r.top == (if value < 0 {
            BAR_CENTER - fill_height(value as int)
        } else {
            BAR_CENTER as int
        }),
{
    let magnitude: i32 = if value < 0 {
        -(value as i32)
    } else {
        value as i32
    };
    let height: i32 = BAR_HALF_HEIGHT * magnitude / CONVERT_G;
    assert(0 <= height <= 2 * BAR_HALF_HEIGHT) by (nonlinear_arith)
        requires
            0 <= magnitude <= 32768,
            height == 20 * magnitude / 16384,
    ;
    let top: i32 = if value < 0 {
        BAR_CENTER - height
    } else {
        BAR_CENTER
    };
    BarFill { left: position + BAR_SPACE, top, height: height as u32 }
}

/// Frames per second, in tenths, for a frame that took `duration_cycles`
/// cycles of a clock running at `clock_hz`; nothing for a zero duration.
pub fn frame_rate_tenths(clock_hz: u32, duration_cycles: u32) -> (r: Option<u64>)
    ensures
        duration_cycles == 0 ==> r is None,
        duration_cycles > 0 ==> r == Some((clock_hz * 10 / (duration_cycles as int)) as u64),
{
    if duration_cycles == 0 {
        None
    } else {
        Some(clock_hz as u64 * 10 / duration_cycles as u64)
    }
}

} // verus!
