//! Per-controller input state: the button and axis stores of one
//! gamepad, keyed by control code.
//!
//! On creation every known button code holds `0` (released) and every
//! known axis code holds `127` (the centre of the unsigned 0 to 255
//! encoding of a signed axis).  Button and axis change events update the
//! stores in place; all other event types leave them untouched.

use vstd::prelude::*;
use std::collections::HashMap;

verus! {

broadcast use vstd::std_specs::hash::group_hash_axioms;

/// A gamepad is identified on the wire by a single byte.
pub type GamepadId = u8;

/// Default stored value of a button control: released.
pub const BUTTON_DEFAULT: u8 = 0;

/// Default stored value of an axis control: centred.
pub const AXIS_DEFAULT: u8 = 127;

/// Largest code of a known button control.
pub const BUTTON_CODE_MAX: u8 = 19;

/// Largest code of a known axis control.
pub const AXIS_CODE_MAX: u8 = 8;

/// Represents different types of gamepad events.
#[derive(Debug, Clone, Copy, PartialEq, Eq, Structural)]
pub enum EventType {
    ButtonChanged,
    AxisChanged,
    Connected,
    Disconnected,
}

impl EventType {
    /// The wire code of this event type.
    pub open spec fn spec_code(self) -> u8 {
        match self {
            EventType::ButtonChanged => 0,
            EventType::AxisChanged => 1,
            EventType::Connected => 2,
            EventType::Disconnected => 3,
        }
    }

    /// The wire code of this event type.
    pub fn code(self) -> (r: u8)
        ensures
            r == self.spec_code(),
    {
        match self {
            EventType::ButtonChanged => 0,
            EventType::AxisChanged => 1,
            EventType::Connected => 2,
            EventType::Disconnected => 3,
        }
    }

    /// The event type a wire code stands for, if any.
    pub open spec fn spec_from_code(code: u8) -> Option<EventType> {
        if code == 0 {
            Some(EventType::ButtonChanged)
        } else if code == 1 {
            Some(EventType::AxisChanged)
        } else if code == 2 {
            Some(EventType::Connected)
        } else if code == 3 {
            Some(EventType::Disconnected)
        } else {
            None
        }
    }

    /// Decodes a wire code into an event type, refusing unknown codes.
    pub fn from_code(code: u8) -> (r: Option<EventType>)
        ensures
            r == EventType::spec_from_code(code),
    {
        if code == 0 {
            Some(EventType::ButtonChanged)
        } else if code == 1 {
            Some(EventType::AxisChanged)
        } else if code == 2 {
            Some(EventType::Connected)
        } else if code == 3 {
            Some(EventType::Disconnected)
        } else {
            None
        }
    }
}

/// Represents different button controls on a gamepad.
#[derive(Debug, Clone, Copy, PartialEq, Eq, Structural)]
pub enum ButtonControl {
    // Action Pad
    South,
    East,
    North,
    West,
    C,
    Z,
    // Triggers
    LeftTrigger,
    LeftTrigger2,
    RightTrigger,
    RightTrigger2,
    // Menu Pad
    Select,
    Start,
    Mode,
    // Sticks
    LeftThumb,
    RightThumb,
    // D-Pad
    DpadUp,
    DpadDown,
    DpadLeft,
    DpadRight,
    Unknown,
}

impl ButtonControl {
    /// The wire code of this button control.
    pub open spec fn spec_code(self) -> u8 {
        match self {
            ButtonControl::South => 1,
            ButtonControl::East => 2,
            ButtonControl::C => 3,
            ButtonControl::North => 4,
            ButtonControl::West => 5,
            ButtonControl::Z => 6,
            ButtonControl::LeftTrigger => 7,
            ButtonControl::RightTrigger => 8,
            ButtonControl::LeftTrigger2 => 9,
            ButtonControl::RightTrigger2 => 10,
            ButtonControl::Select => 11,
            ButtonControl::Start => 12,
            ButtonControl::Mode => 13,
            ButtonControl::LeftThumb => 14,
            ButtonControl::RightThumb => 15,
            ButtonControl::DpadUp => 16,
            ButtonControl::DpadDown => 17,
            ButtonControl::DpadLeft => 18,
            ButtonControl::DpadRight => 19,
            ButtonControl::Unknown => 0,
        }
    }

    /// The wire code of this button control.
    pub fn code(self) -> (r: u8)
        ensures
            r == self.spec_code(),
            r <= BUTTON_CODE_MAX,
    {
        match self {
            ButtonControl::South => 1,
            ButtonControl::East => 2,
            ButtonControl::C => 3,
            ButtonControl::North => 4,
            ButtonControl::West => 5,
            ButtonControl::Z => 6,
            ButtonControl::LeftTrigger => 7,
            ButtonControl::RightTrigger => 8,
            ButtonControl::LeftTrigger2 => 9,
            ButtonControl::RightTrigger2 => 10,
            ButtonControl::Select => 11,
            ButtonControl::Start => 12,
            ButtonControl::Mode => 13,
            ButtonControl::LeftThumb => 14,
            ButtonControl::RightThumb => 15,
            ButtonControl::DpadUp => 16,
            ButtonControl::DpadDown => 17,
            ButtonControl::DpadLeft => 18,
            ButtonControl::DpadRight => 19,
            ButtonControl::Unknown => 0,
        }
    }
}

/// Represents different axis controls on a gamepad.
#[derive(Debug, Clone, Copy, PartialEq, Eq, Structural)]
pub enum AxisControl {
    LeftStickX,
    LeftStickY,
    LeftZ,
    RightStickX,
    RightStickY,
    RightZ,
    DpadX,
    DpadY,
    Unknown,
}

impl AxisControl {
    /// The wire code of this axis control.
    pub open spec fn spec_code(self) -> u8 {
        match self {
            AxisControl::LeftStickX => 1,
            AxisControl::LeftStickY => 2,
            AxisControl::LeftZ => 3,
            AxisControl::RightStickX => 4,
            AxisControl::RightStickY => 5,
            AxisControl::RightZ => 6,
            AxisControl::DpadX => 7,
            AxisControl::DpadY => 8,
            AxisControl::Unknown => 0,
        }
    }

    /// The wire code of this axis control.
    pub fn code(self) -> (r: u8)
        ensures
            r == self.spec_code(),
            r <= AXIS_CODE_MAX,
    {
        match self {
            AxisControl::LeftStickX => 1,
            AxisControl::LeftStickY => 2,
            AxisControl::LeftZ => 3,
            AxisControl::RightStickX => 4,
            AxisControl::RightStickY => 5,
            AxisControl::RightZ => 6,
            AxisControl::DpadX => 7,
            AxisControl::DpadY => 8,
            AxisControl::Unknown => 0,
        }
    }
}

/// The mathematical content of one gamepad slot: its identifier and the
/// two control stores.
pub struct GamepadView {
    pub gamepad_id: GamepadId,
    pub buttons: Map<u8, u8>,
    pub axis: Map<u8, u8>,
}

/// The button store every gamepad starts from: every known button code
/// released.
pub open spec fn spec_default_buttons() -> Map<u8, u8> {
    Map::new(|c: u8| c <= BUTTON_CODE_MAX, |c: u8| BUTTON_DEFAULT)
}

/// The axis store every gamepad starts from: every known axis code
/// centred.
pub open spec fn spec_default_axes() -> Map<u8, u8> {
    Map::new(|c: u8| c <= AXIS_CODE_MAX, |c: u8| AXIS_DEFAULT)
}

/// The state of a gamepad that has just been seen: default stores under
/// the given identifier.
pub open spec fn spec_new_gamepad(gamepad_id: GamepadId) -> GamepadView {
    GamepadView { gamepad_id, buttons: spec_default_buttons(), axis: spec_default_axes() }
}

/// How one wire event changes one gamepad's stores: a button change
/// updates the button store, an axis change the axis store, and every
/// other event type leaves the gamepad untouched.
pub open spec fn spec_apply_event(
    g: GamepadView,
    event_type: u8,
    control: u8,
    value: u8,
) -> GamepadView {
    if event_type == EventType::ButtonChanged.spec_code() {
        GamepadView { buttons: g.buttons.insert(control, value), ..g }
    } else if event_type == EventType::AxisChanged.spec_code() {
        GamepadView { axis: g.axis.insert(control, value), ..g }
    } else {
        g
    }
}

/// Represents the data for a specific gamepad.
#[derive(Debug, Clone)]
pub struct GamepadData {
    pub gamepad_id: GamepadId,
    pub buttons: HashMap<u8, u8>,
    pub axis: HashMap<u8, u8>,
}

impl View for GamepadData {
    type V = GamepadView;

    open spec fn view(&self) -> GamepadView {
        GamepadView { gamepad_id: self.gamepad_id, buttons: self.buttons@, axis: self.axis@ }
    }
}

impl GamepadData {
    /// Creates the store for a newly seen gamepad: every known button
    /// released and every known axis centred.
    pub fn new(gamepad_id: GamepadId) -> (r: GamepadData)
        ensures
            r@ == spec_new_gamepad(gamepad_id),
    {
        let mut buttons: HashMap<u8, u8> = HashMap::new();
        let mut c: u8 = 0;
        while c <= BUTTON_CODE_MAX
            invariant
                c <= BUTTON_CODE_MAX + 1,
                forall|k: u8| #[trigger] buttons@.contains_key(k) <==> k < c,
                forall|k: u8| k < c ==> #[trigger] buttons@[k] == BUTTON_DEFAULT,
            decreases BUTTON_CODE_MAX + 1 - c,
        {
            buttons.insert(c, BUTTON_DEFAULT);
            c = c + 1;
        }
        let mut axis: HashMap<u8, u8> = HashMap::new();
        let mut a: u8 = 0;
        while a <= AXIS_CODE_MAX
            invariant
                a <= AXIS_CODE_MAX + 1,
                forall|k: u8| #[trigger] axis@.contains_key(k) <==> k < a,
                forall|k: u8| k < a ==> #[trigger] axis@[k] == AXIS_DEFAULT,
            decreases AXIS_CODE_MAX + 1 - a,
        {
            axis.insert(a, AXIS_DEFAULT);
            a = a + 1;
        }
        let r = GamepadData { gamepad_id, buttons, axis };
        proof {
            assert(r@.buttons =~= spec_default_buttons());
            assert(r@.axis =~= spec_default_axes());
        }
        r
    }

    /// Applies one wire event to this gamepad's stores.
    pub fn handle_cockpit_message(&mut self, event_type: u8, control: u8, value: u8)
        ensures
            final(self)@ == spec_apply_event(old(self)@, event_type, control, value),
    {
        if event_type == EventType::ButtonChanged.code() {
            self.buttons.insert(control, value);
        } else if event_type == EventType::AxisChanged.code() {
            self.axis.insert(control, value);
        }
    }

    /// Returns the gamepad ID.
    pub fn gamepad_id(&self) -> (r: GamepadId)
        ensures
            r == self@.gamepad_id,
    {
        self.gamepad_id
    }
}

} // verus!
