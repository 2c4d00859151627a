use linkage::cockpit::{axis_wire_value, button_wire_value, GamepadIdMap};
use linkage::gamepad::{AxisControl, ButtonControl, EventType, GamepadData};
use linkage::gamepad_manager::{AssociatedGamepad, GamepadManager};
use linkage::protocol::CockpitToLinkage;
use linkage::ps_controller::PsController;

fn button_event(gamepad_id: u8, control: u8, value: u8) -> CockpitToLinkage {
    CockpitToLinkage::GamepadInputEvent {
        gamepad_id,
        event_type: EventType::ButtonChanged.code(),
        control,
        value,
    }
}

#[test]
fn new_gamepad_holds_the_defaults() {
    let data = GamepadData::new(9);
    assert_eq!(data.gamepad_id(), 9);
    for code in 0u8..=19 {
        assert_eq!(data.buttons.get(&code), Some(&0));
    }
    for code in 0u8..=8 {
        assert_eq!(data.axis.get(&code), Some(&127));
    }
    assert_eq!(data.buttons.get(&20), None);
    assert_eq!(data.axis.get(&9), None);
}

#[test]
fn gamepad_events_update_the_right_store() {
    let mut data = GamepadData::new(3);
    data.handle_cockpit_message(EventType::ButtonChanged.code(), 4, 255);
    assert_eq!(data.buttons.get(&4), Some(&255));
    assert_eq!(data.axis.get(&4), Some(&127));
    data.handle_cockpit_message(EventType::AxisChanged.code(), 2, 17);
    assert_eq!(data.axis.get(&2), Some(&17));
    assert_eq!(data.buttons.get(&2), Some(&0));
    // An unrecognized event type changes nothing.
    data.handle_cockpit_message(77, 2, 200);
    assert_eq!(data.axis.get(&2), Some(&17));
    assert_eq!(data.buttons.get(&2), Some(&0));
}

#[test]
fn button_event_for_unseen_id_creates_a_slot() {
    let mut manager = GamepadManager::new();
    manager.handle_cockpit_message(button_event(42, 4, 200));
    let primary = manager.get(AssociatedGamepad::Primary).unwrap();
    assert_eq!(primary.gamepad_id(), 42);
    assert_eq!(primary.buttons.get(&4), Some(&200));
}

#[test]
fn disconnect_frees_the_slot_and_a_new_id_reuses_it() {
    let mut manager = GamepadManager::new();
    manager.handle_cockpit_message(button_event(42, 4, 200));
    manager.handle_cockpit_message(button_event(43, 1, 10));
    assert_eq!(manager.get(AssociatedGamepad::Primary).unwrap().gamepad_id(), 42);
    assert_eq!(manager.get(AssociatedGamepad::Secondary).unwrap().gamepad_id(), 43);

    manager.handle_cockpit_message(CockpitToLinkage::GamepadInputEvent {
        gamepad_id: 42,
        event_type: EventType::Disconnected.code(),
        control: 0,
        value: 0,
    });
    assert!(manager.get(AssociatedGamepad::Primary).is_none());
    assert_eq!(manager.get(AssociatedGamepad::Secondary).unwrap().gamepad_id(), 43);

    // The freed slot is reused before the arena grows.
    manager.handle_cockpit_message(button_event(7, 2, 128));
    assert_eq!(manager.get(AssociatedGamepad::Primary).unwrap().gamepad_id(), 7);
    assert_eq!(manager.get(AssociatedGamepad::Secondary).unwrap().gamepad_id(), 43);
}

#[test]
fn connect_does_not_overwrite_an_existing_slot() {
    let mut manager = GamepadManager::new();
    manager.handle_cockpit_message(button_event(5, 4, 200));
    manager.handle_cockpit_message(CockpitToLinkage::GamepadInputEvent {
        gamepad_id: 5,
        event_type: EventType::Connected.code(),
        control: 0,
        value: 0,
    });
    let primary = manager.get(AssociatedGamepad::Primary).unwrap();
    assert_eq!(primary.gamepad_id(), 5);
    assert_eq!(primary.buttons.get(&4), Some(&200));
}

#[test]
fn unknown_event_type_is_dropped() {
    let mut manager = GamepadManager::new();
    manager.handle_cockpit_message(CockpitToLinkage::GamepadInputEvent {
        gamepad_id: 5,
        event_type: 9,
        control: 0,
        value: 0,
    });
    assert!(manager.get(AssociatedGamepad::Primary).is_none());
}

#[test]
fn ps_controller_reads_the_named_controls() {
    let mut data = GamepadData::new(1);
    data.handle_cockpit_message(
        EventType::ButtonChanged.code(),
        ButtonControl::North.code(),
        200,
    );
    data.handle_cockpit_message(
        EventType::ButtonChanged.code(),
        ButtonControl::South.code(),
        127,
    );
    data.handle_cockpit_message(EventType::AxisChanged.code(), AxisControl::LeftStickX.code(), 255);
    data.handle_cockpit_message(EventType::AxisChanged.code(), AxisControl::LeftStickY.code(), 0);
    let controller = PsController::new(data);
    assert_eq!(controller.id(), 1);
    assert!(controller.triangle());
    // A stored value of exactly 127 does not count as pressed.
    assert!(!controller.cross());
    assert!(!controller.square());
    assert_eq!(controller.left_joystick_x(), 10000);
    assert_eq!(controller.left_joystick_y(), -10000);
    // A centred axis reads slightly below zero under truncating
    // interpolation: -10000 + 127 * 20000 / 255.
    assert_eq!(controller.right_joystick_x(), -40);
    // An absent control reads as zero.
    assert_eq!(controller.left_trigger(), 0);
}

#[test]
fn capture_scaling_matches_the_wire_encoding() {
    assert_eq!(button_wire_value(0), 0);
    assert_eq!(button_wire_value(10000), 255);
    assert_eq!(button_wire_value(5000), 127);
    assert_eq!(button_wire_value(-50), 0);
    assert_eq!(button_wire_value(12000), 255);
    assert_eq!(axis_wire_value(-10000), 0);
    assert_eq!(axis_wire_value(0), 127);
    assert_eq!(axis_wire_value(10000), 255);
    assert_eq!(axis_wire_value(-12000), 0);
    assert_eq!(axis_wire_value(12000), 255);
}

#[test]
fn gamepad_id_map_assigns_bytes_in_order_of_first_sight() {
    let mut map = GamepadIdMap::new();
    assert_eq!(map.wire_id(0xDEAD), Some(0));
    assert_eq!(map.wire_id(0xBEEF), Some(1));
    assert_eq!(map.wire_id(0xDEAD), Some(0));
    assert_eq!(map.wire_id(0xBEEF), Some(1));
    assert_eq!(map.wire_id(7), Some(2));
}
