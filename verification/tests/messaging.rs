use linkage::protocol::{
    BackendToFrontendMessage, BackendToRuntimeMessage, CockpitToLinkage, FrontendToBackendMessage,
    LinkageToCarburetor, RuntimeToBackendMessage,
};
use linkage::speed::Speed;

#[test]
fn cockpit_to_linkage_try_from_bytes() {
    let message = CockpitToLinkage::try_from_bytes(&[0x20, 0, 0, 0, 42, 43, 44, 45]).unwrap();

    assert_eq!(
        message,
        CockpitToLinkage::GamepadInputEvent {
            gamepad_id: 42,
            event_type: 43,
            control: 44,
            value: 45,
        }
    )
}

#[test]
fn cockpit_to_linkage_try_from_bytes_wrong_unused_bytes() {
    let result = CockpitToLinkage::try_from_bytes(&[0x20, 69, 69, 69, 42, 43, 44, 45]);
    assert!(result.is_err());
}

#[test]
fn cockpit_to_linkage_try_from_bytes_wrong_instruction() {
    let result = CockpitToLinkage::try_from_bytes(&[0x10, 0, 0, 0, 42, 43, 44, 45]);
    assert!(result.is_err());
}

#[test]
fn bytes_from_cockpit_to_linkage() {
    let bytes = CockpitToLinkage::GamepadInputEvent {
        gamepad_id: 42,
        event_type: 43,
        control: 44,
        value: 45,
    }
    .to_bytes();

    assert_eq!(bytes, [0x20, 0, 0, 0, 42, 43, 44, 45])
}

#[test]
fn linkage_to_carburetor_from_bytes() {
    let message = LinkageToCarburetor::try_from_bytes(&[0x40, 1, 0, 0, 63, 49, 183, 23]).unwrap();

    let expected_speed = (0.69420f32 * 10_000.0).round() as i32;
    assert_eq!(
        message,
        LinkageToCarburetor::MotorInstruction {
            channel: 1,
            speed: Speed::new(expected_speed).unwrap(),
        }
    )
}

#[test]
fn linkage_to_carburetor_from_bytes_wrong_instruction() {
    let result = LinkageToCarburetor::try_from_bytes(&[0x10, 1, 0, 0, 63, 49, 183, 23]);
    assert!(result.is_err());
}

#[test]
fn linkage_to_carburetor_from_bytes_wrong_unused_bytes() {
    let result = LinkageToCarburetor::try_from_bytes(&[0x40, 1, 69, 69, 63, 49, 183, 23]);
    assert!(result.is_err());
}

#[test]
fn bytes_from_linkage_to_carburetor() {
    let speed = Speed::new((0.69420f32 * 10_000.0).round() as i32).unwrap();
    let bytes = LinkageToCarburetor::MotorInstruction { channel: 1, speed }.to_bytes();

    assert_eq!(bytes, [0x40, 1, 0, 0, 63, 49, 183, 23])
}

#[test]
fn motor_frame_decodes_and_reencodes() {
    // A motor instruction for channel 2 at roughly 0.6942 of full power.
    let frame: [u8; 8] = [0x40, 2, 0, 0, 63, 49, 183, 23];
    let message = LinkageToCarburetor::try_from_bytes(&frame).unwrap();
    match message {
        LinkageToCarburetor::MotorInstruction { channel, speed } => {
            assert_eq!(channel, 2);
            assert_eq!(speed.ten_thousandths(), 6942);
        }
    }
    assert_eq!(message.to_bytes(), frame);
}

#[test]
fn gamepad_frame_decodes_payload_and_rejects_reserved() {
    let message = CockpitToLinkage::try_from_bytes(&[0x20, 0, 0, 0, 42, 43, 44, 45]).unwrap();
    assert_eq!(
        message,
        CockpitToLinkage::GamepadInputEvent {
            gamepad_id: 42,
            event_type: 43,
            control: 44,
            value: 45,
        }
    );
    let rejected = CockpitToLinkage::try_from_bytes(&[0x20, 69, 69, 69, 42, 43, 44, 45]);
    assert!(rejected.is_err());
}

#[test]
fn tag_only_families_round_trip() {
    for message in [FrontendToBackendMessage::Enable, FrontendToBackendMessage::Disable] {
        assert_eq!(
            FrontendToBackendMessage::try_from_bytes(&message.to_bytes()).unwrap(),
            message
        );
    }
    for message in [BackendToFrontendMessage::Enabled, BackendToFrontendMessage::Disabled] {
        assert_eq!(
            BackendToFrontendMessage::try_from_bytes(&message.to_bytes()).unwrap(),
            message
        );
    }
    for message in [BackendToRuntimeMessage::Enable, BackendToRuntimeMessage::Disable] {
        assert_eq!(
            BackendToRuntimeMessage::try_from_bytes(&message.to_bytes()).unwrap(),
            message
        );
    }
    for message in [RuntimeToBackendMessage::Enabled, RuntimeToBackendMessage::Disabled] {
        assert_eq!(
            RuntimeToBackendMessage::try_from_bytes(&message.to_bytes()).unwrap(),
            message
        );
    }
}

#[test]
fn tag_only_families_use_their_assigned_tags() {
    assert_eq!(FrontendToBackendMessage::Enable.to_bytes(), [0x00, 0, 0, 0, 0, 0, 0, 0]);
    assert_eq!(FrontendToBackendMessage::Disable.to_bytes(), [0x01, 0, 0, 0, 0, 0, 0, 0]);
    assert_eq!(BackendToFrontendMessage::Enabled.to_bytes(), [0x08, 0, 0, 0, 0, 0, 0, 0]);
    assert_eq!(BackendToFrontendMessage::Disabled.to_bytes(), [0x09, 0, 0, 0, 0, 0, 0, 0]);
    assert_eq!(BackendToRuntimeMessage::Enable.to_bytes(), [0x10, 0, 0, 0, 0, 0, 0, 0]);
    assert_eq!(BackendToRuntimeMessage::Disable.to_bytes(), [0x11, 0, 0, 0, 0, 0, 0, 0]);
    assert_eq!(RuntimeToBackendMessage::Enabled.to_bytes(), [0x18, 0, 0, 0, 0, 0, 0, 0]);
    assert_eq!(RuntimeToBackendMessage::Disabled.to_bytes(), [0x19, 0, 0, 0, 0, 0, 0, 0]);
}

#[test]
fn unknown_frames_fail_to_decode() {
    let unknown: [u8; 8] = [0x7E, 1, 2, 3, 4, 5, 6, 7];
    assert!(FrontendToBackendMessage::try_from_bytes(&unknown).is_err());
    assert!(BackendToFrontendMessage::try_from_bytes(&unknown).is_err());
    assert!(BackendToRuntimeMessage::try_from_bytes(&unknown).is_err());
    assert!(RuntimeToBackendMessage::try_from_bytes(&unknown).is_err());
    assert!(CockpitToLinkage::try_from_bytes(&unknown).is_err());
    assert!(LinkageToCarburetor::try_from_bytes(&unknown).is_err());
    // A tag-only frame with a non-zero trailing byte matches no pattern.
    assert!(BackendToRuntimeMessage::try_from_bytes(&[0x10, 0, 0, 0, 0, 0, 0, 9]).is_err());
}

#[test]
fn motor_round_trip_across_the_speed_range() {
    for tt in [-10000i32, -9999, -6942, -1, 0, 1, 42, 5000, 9999, 10000] {
        let speed = Speed::new(tt).unwrap();
        let message = LinkageToCarburetor::MotorInstruction { channel: 0, speed };
        let decoded = LinkageToCarburetor::try_from_bytes(&message.to_bytes()).unwrap();
        assert_eq!(decoded, message);
    }
}

#[test]
fn gamepad_event_round_trip() {
    let message = CockpitToLinkage::GamepadInputEvent {
        gamepad_id: 7,
        event_type: 1,
        control: 3,
        value: 200,
    };
    assert_eq!(CockpitToLinkage::try_from_bytes(&message.to_bytes()).unwrap(), message);
}
