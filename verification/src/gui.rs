//! Size of the controls window.

use vstd::prelude::*;
use crate::controls::Controls;

verus! {

pub const GUI_WIDTH: u32 = 350;
pub const HEADER_HEIGHT: u32 = 40;
pub const ALERT_HEIGHT: u32 = 40;
pub const CONTROL_HEIGHT: u32 = 26;
pub const THRESHOLD: u32 = 5;
pub const MIN_FINAL_GAP: u32 = 4;

/// Height given to each control: 95% of `CONTROL_HEIGHT`, rounded down.
pub open spec fn row_height() -> int {
    CONTROL_HEIGHT * 95 / 100
}

/// Height of the control area for `count` controls.
pub open spec fn controls_height(count: int) -> int {
    THRESHOLD * row_height() + (count - THRESHOLD) * row_height()
}

/// Width and height of the controls window: a header, one row per control and
/// an alert panel. With controls, at least `THRESHOLD` of them are expected.
pub fn calculate_gui_dimensions(controls: Option<&Controls>) -> (r: (u32, u32))
    requires
        controls matches Some(c) ==> THRESHOLD <= c.configs().len() <= 178_956_967,
    ensures
        r.0 == GUI_WIDTH,
        r.1 == HEADER_HEIGHT + (match controls {
            Some(c) => controls_height(c.configs().len() as int),
            None => 0,
        }) + MIN_FINAL_GAP + ALERT_HEIGHT,
{
    let controls_height: u32 = match controls {
        Some(c) => {
            let count = c.get_controls().len() as u32;
            let reduced_height: u32 = CONTROL_HEIGHT * 95 / 100;
            assert(reduced_height == 24);
            assert(row_height() == 24);
            let base = THRESHOLD * reduced_height;
            let remaining = count - THRESHOLD;
            base + remaining * reduced_height
        },
        None => 0,
    };
    (GUI_WIDTH, HEADER_HEIGHT + controls_height + MIN_FINAL_GAP + ALERT_HEIGHT)
}

} // verus!
