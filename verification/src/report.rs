use vstd::prelude::*;
use crate::script::MotionVector;

verus! {

/// A HID mouse input report: one byte of buttons and four signed 8-bit
/// relative axes. This firmware only ever moves the pointer, so every field
/// but `x` and `y` is zero.
#[derive(Clone, Copy, PartialEq, Eq, Structural, Debug)]
pub struct InputReport {
    pub buttons: u8,
    pub x: i8,
    pub y: i8,
    pub wheel: i8,
    pub pan: i8,
}

/// The report that delivers one motion vector: its deltas on `x` and `y`,
/// everything else zero.
pub open spec fn report_of(v: MotionVector) -> InputReport {
    InputReport { buttons: 0, x: v.dx, y: v.dy, wheel: 0, pan: 0 }
}

/// Builds a pure pointer-motion report: no buttons, no wheel, no pan.
pub fn mouse_move_report(x: i8, y: i8) -> (r: InputReport)
    ensures
        r == (InputReport { buttons: 0, x: x, y: y, wheel: 0, pan: 0 }),
{
    InputReport { buttons: 0, x, y, wheel: 0, pan: 0 }
}

/// The report for one vector of the motion script.
pub fn report_for(v: MotionVector) -> (r: InputReport)
    ensures
        r == report_of(v),
{
    mouse_move_report(v.dx, v.dy)
}

} // verus!
