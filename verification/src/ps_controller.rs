//! A PlayStation-style controller: a thin named-control mapping over the
//! neutral button and axis stores of one gamepad.
//!
//! Every accessor is a pure function of the stored maps.  A control is
//! pressed when its stored value exceeds 127; an axis value is mapped
//! from its unsigned 0 to 255 wire encoding onto a target range by
//! linear interpolation.  Ranges are expressed in ten-thousandths, the
//! same fixed-point scale the motor speeds use, so a stick reading can
//! feed a motor speed without further conversion.

use vstd::prelude::*;
use std::collections::HashMap;
use crate::gamepad::{AxisControl, ButtonControl, GamepadData, GamepadId};

verus! {

broadcast use vstd::std_specs::hash::group_hash_axioms;

/// Whether the stored value of `control` in store `m` counts as pressed.
pub open spec fn spec_button_pressed(m: Map<u8, u8>, control: u8) -> bool {
    m.contains_key(control) && m[control] > 127
}

/// The stored value of `control` in store `m`, mapped from its 0 to 255
/// wire encoding onto the range `lo` to `hi` by linear interpolation
/// (rounding toward `lo`); an absent control reads as zero.
pub open spec fn spec_axis_value(m: Map<u8, u8>, control: u8, lo: int, hi: int) -> int {
    if m.contains_key(control) {
        lo + (m[control] * (hi - lo)) / 255
    } else {
        0
    }
}

/// Represents a PlayStation controller.
pub struct PsController {
    gamepad_data: GamepadData,
}

impl PsController {
    /// The stores this controller reads.
    pub closed spec fn view(&self) -> crate::gamepad::GamepadView {
        self.gamepad_data@
    }

    /// Creates a new [`PsController`] over the given gamepad data.
    pub fn new(gamepad_data: GamepadData) -> (r: PsController)
        ensures
            r@ == gamepad_data@,
    {
        PsController { gamepad_data }
    }

    /// Returns the gamepad identifier of this controller.
    pub fn id(&self) -> (r: GamepadId)
        ensures
            r == self@.gamepad_id,
    {
        self.gamepad_data.gamepad_id()
    }

    /// Whether the stored value of `control` in `map` counts as pressed.
    fn control_button_value(&self, map: &HashMap<u8, u8>, control: u8) -> (r: bool)
        ensures
            r == spec_button_pressed(map@, control),
    {
        match map.get(&control) {
            Some(value) => *value > 127,
            None => false,
        }
    }

    /// The stored value of `control` in `map`, interpolated onto the
    /// range `lo` to `hi` of ten-thousandths.
    fn control_axis_value(&self, map: &HashMap<u8, u8>, control: u8, lo: i32, hi: i32) -> (r: i32)
        requires
            -10000 <= lo < hi <= 10000,
        ensures
            r == spec_axis_value(map@, control, lo as int, hi as int),
            -10000 <= r <= 10000,
    {
        match map.get(&control) {
            Some(value) => {
                let span: u32 = (hi - lo) as u32;
                proof {
                    assert((*value as int) * (span as int) <= 255 * (span as int))
                        by (nonlinear_arith)
                        requires
                            0 <= *value as int <= 255,
                            0 <= span as int,
                    ;
                    vstd::arithmetic::div_mod::lemma_div_is_ordered(
                        (*value as int) * (span as int),
                        255 * (span as int),
                        255,
                    );
                    vstd::arithmetic::div_mod::lemma_div_by_multiple(span as int, 255);
                }
                let scaled: u32 = (*value as u32) * span / 255;
                lo + scaled as i32
            },
            None => 0,
        }
    }

    /// Returns the state of the triangle button.
    pub fn triangle(&self) -> (r: bool)
        ensures
            r == spec_button_pressed(self@.buttons, ButtonControl::North.spec_code()),
    {
        self.control_button_value(&self.gamepad_data.buttons, ButtonControl::North.code())
    }

    /// Returns the state of the square button.
    pub fn square(&self) -> (r: bool)
        ensures
            r == spec_button_pressed(self@.buttons, ButtonControl::West.spec_code()),
    {
        self.control_button_value(&self.gamepad_data.buttons, ButtonControl::West.code())
    }

    /// Returns the state of the cross button.
    pub fn cross(&self) -> (r: bool)
        ensures
            r == spec_button_pressed(self@.buttons, ButtonControl::South.spec_code()),
    {
        self.control_button_value(&self.gamepad_data.buttons, ButtonControl::South.code())
    }

    /// Returns the state of the circle button.
    pub fn circle(&self) -> (r: bool)
        ensures
            r == spec_button_pressed(self@.buttons, ButtonControl::East.spec_code()),
    {
        self.control_button_value(&self.gamepad_data.buttons, ButtonControl::East.code())
    }

    /// Returns the state of the dpad's up button.
    pub fn dpad_up(&self) -> (r: bool)
        ensures
            r == spec_button_pressed(self@.buttons, ButtonControl::DpadUp.spec_code()),
    {
        self.control_button_value(&self.gamepad_data.buttons, ButtonControl::DpadUp.code())
    }

    /// Returns the state of the dpad's down button.
    pub fn dpad_down(&self) -> (r: bool)
        ensures
            r == spec_button_pressed(self@.buttons, ButtonControl::DpadDown.spec_code()),
    {
        self.control_button_value(&self.gamepad_data.buttons, ButtonControl::DpadDown.code())
    }

    /// Returns the state of the dpad's left button.
    pub fn dpad_left(&self) -> (r: bool)
        ensures
            r == spec_button_pressed(self@.buttons, ButtonControl::DpadLeft.spec_code()),
    {
        self.control_button_value(&self.gamepad_data.buttons, ButtonControl::DpadLeft.code())
    }

    /// Returns the state of the dpad's right button.
    pub fn dpad_right(&self) -> (r: bool)
        ensures
            r == spec_button_pressed(self@.buttons, ButtonControl::DpadRight.spec_code()),
    {
        self.control_button_value(&self.gamepad_data.buttons, ButtonControl::DpadRight.code())
    }

    /// Returns the state of the left bumper button.
    pub fn left_bumper(&self) -> (r: bool)
        ensures
            r == spec_button_pressed(self@.buttons, ButtonControl::LeftTrigger.spec_code()),
    {
        self.control_button_value(&self.gamepad_data.buttons, ButtonControl::LeftTrigger.code())
    }

    /// Returns the state of the right bumper button.
    pub fn right_bumper(&self) -> (r: bool)
        ensures
            r == spec_button_pressed(self@.buttons, ButtonControl::RightTrigger.spec_code()),
    {
        self.control_button_value(&self.gamepad_data.buttons, ButtonControl::RightTrigger.code())
    }

    /// Returns the state of the left trigger, from 0 (released) to
    /// 10000 (fully pressed), in ten-thousandths.
    pub fn left_trigger(&self) -> (r: i32)
        ensures
            r == spec_axis_value(self@.buttons, ButtonControl::LeftTrigger2.spec_code(), 0, 10000),
    {
        self.control_axis_value(
            &self.gamepad_data.buttons,
            ButtonControl::LeftTrigger2.code(),
            0,
            10000,
        )
    }

    /// Returns the state of the right trigger, from 0 (released) to
    /// 10000 (fully pressed), in ten-thousandths.
    pub fn right_trigger(&self) -> (r: i32)
        ensures
            r == spec_axis_value(self@.buttons, ButtonControl::RightTrigger2.spec_code(), 0, 10000),
    {
        self.control_axis_value(
            &self.gamepad_data.buttons,
            ButtonControl::RightTrigger2.code(),
            0,
            10000,
        )
    }

    /// Returns the x-axis of the left joystick, from -10000 (fully
    /// left) to 10000 (fully right), in ten-thousandths.
    pub fn left_joystick_x(&self) -> (r: i32)
        ensures
            r == spec_axis_value(self@.axis, AxisControl::LeftStickX.spec_code(), -10000, 10000),
    {
        self.control_axis_value(
            &self.gamepad_data.axis,
            AxisControl::LeftStickX.code(),
            -10000,
            10000,
        )
    }

    /// Returns the y-axis of the left joystick, from -10000 (fully up)
    /// to 10000 (fully down), in ten-thousandths.
    pub fn left_joystick_y(&self) -> (r: i32)
        ensures
            r == spec_axis_value(self@.axis, AxisControl::LeftStickY.spec_code(), -10000, 10000),
    {
        self.control_axis_value(
            &self.gamepad_data.axis,
            AxisControl::LeftStickY.code(),
            -10000,
            10000,
        )
    }

    /// Returns the state of the left joystick button.
    pub fn left_joystick_button(&self) -> (r: bool)
        ensures
            r == spec_button_pressed(self@.buttons, ButtonControl::LeftThumb.spec_code()),
    {
        self.control_button_value(&self.gamepad_data.buttons, ButtonControl::LeftThumb.code())
    }

    /// Returns the x-axis of the right joystick, from -10000 (fully
    /// left) to 10000 (fully right), in ten-thousandths.
    pub fn right_joystick_x(&self) -> (r: i32)
        ensures
            r == spec_axis_value(self@.axis, AxisControl::RightStickX.spec_code(), -10000, 10000),
    {
        self.control_axis_value(
            &self.gamepad_data.axis,
            AxisControl::RightStickX.code(),
            -10000,
            10000,
        )
    }

    /// Returns the y-axis of the right joystick, from -10000 (fully up)
    /// to 10000 (fully down), in ten-thousandths.
    pub fn right_joystick_y(&self) -> (r: i32)
        ensures
            r == spec_axis_value(self@.axis, AxisControl::RightStickY.spec_code(), -10000, 10000),
    {
        self.control_axis_value(
            &self.gamepad_data.axis,
            AxisControl::RightStickY.code(),
            -10000,
            10000,
        )
    }

    /// Returns the state of the right joystick button.
    pub fn right_joystick_button(&self) -> (r: bool)
        ensures
            r == spec_button_pressed(self@.buttons, ButtonControl::RightThumb.spec_code()),
    {
        self.control_button_value(&self.gamepad_data.buttons, ButtonControl::RightThumb.code())
    }

    /// Returns the state of the share button.
    pub fn share(&self) -> (r: bool)
        ensures
            r == spec_button_pressed(self@.buttons, ButtonControl::Select.spec_code()),
    {
        self.control_button_value(&self.gamepad_data.buttons, ButtonControl::Select.code())
    }

    /// Returns the state of the options button.
    pub fn options(&self) -> (r: bool)
        ensures
            r == spec_button_pressed(self@.buttons, ButtonControl::Start.spec_code()),
    {
        self.control_button_value(&self.gamepad_data.buttons, ButtonControl::Start.code())
    }

    /// Returns the state of the home button.
    pub fn home(&self) -> (r: bool)
        ensures
            r == spec_button_pressed(self@.buttons, ButtonControl::Mode.spec_code()),
    {
        self.control_button_value(&self.gamepad_data.buttons, ButtonControl::Mode.code())
    }
}

} // verus!
