//! The axes a scroll container scrolls along, and which one a turn of the
//! mouse wheel scrolls.
use bevy::input::Input;
use vstd::prelude::*;

use crate::input::{input_any_pressed, keys_held, KeyCode};

verus! {

/// An axis of scrolling.
#[derive(Clone, Copy, Debug, PartialEq, Eq, Structural)]
pub enum ScrollAxis {
    Horizontal,
    Vertical,
}

impl Default for ScrollAxis {
    fn default() -> (a: Self)
        ensures
            a == ScrollAxis::Horizontal,
    {
        ScrollAxis::Horizontal
    }
}

/// The axis a wheel event scrolls: horizontal when the wheel turned to the
/// right (`wheel_right` stands for a positive horizontal delta) or a Shift
/// key is held down, vertical otherwise.
pub fn scroll_axis_for(wheel_right: bool, keys: &Input<KeyCode>) -> (axis: ScrollAxis)
    ensures
        axis == if wheel_right || keys_held(*keys).contains(KeyCode::ShiftLeft) || keys_held(
            *keys,
        ).contains(KeyCode::ShiftRight) {
            ScrollAxis::Horizontal
        } else {
            ScrollAxis::Vertical
        },
{
    if wheel_right || input_any_pressed(keys, KeyCode::ShiftLeft, KeyCode::ShiftRight) {
        ScrollAxis::Horizontal
    } else {
        ScrollAxis::Vertical
    }
}

} // verus!
