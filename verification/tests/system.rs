use linkage::carburetor::{handle_frame, FrameAction, MOTOR_CHANNELS};
use linkage::config::LinkageConfig;
use linkage::gauge::{Gauge, Mem, Memory, ServiceInfo, Swap};
use linkage::motors::SparkMotorController;
use linkage::protocol::{LinkageToCarburetor, RuntimeToBackendMessage};
use linkage::robot_state::{shutdown_instructions, RobotState};
use linkage::speed::Speed;
use linkage::supervisor::State;

#[test]
fn enable_twice_spawns_once_and_disable_reaps_everything() {
    let mut state = State::new();
    assert!(state.needs_spawn());

    // First enable: the caller spawns and records the children.
    let reply = state.enable(vec![101, 102]);
    assert_eq!(reply, RuntimeToBackendMessage::Enabled);

    // Second enable without an intervening disable: no spawn is asked
    // for, nothing changes, and the caller is still acknowledged.
    assert!(!state.needs_spawn());
    let reply = state.enable(vec![]);
    assert_eq!(reply, RuntimeToBackendMessage::Enabled);

    // Disable hands back exactly the children recorded at the first
    // enable, for termination in order.
    let (reply, to_kill) = state.disable();
    assert_eq!(reply, RuntimeToBackendMessage::Disabled);
    assert_eq!(to_kill, vec![101, 102]);

    // Disable while already disabled still acknowledges, with nothing
    // left to kill.
    let (reply, to_kill) = state.disable();
    assert_eq!(reply, RuntimeToBackendMessage::Disabled);
    assert!(to_kill.is_empty());
    assert!(state.needs_spawn());
}

#[test]
fn carburetor_applies_routes_and_skips() {
    assert_eq!(MOTOR_CHANNELS, 2);

    let apply = handle_frame(&[0x40, 1, 0, 0, 63, 49, 183, 23]);
    match apply {
        FrameAction::Apply { channel, speed } => {
            assert_eq!(channel, 1);
            assert_eq!(speed.ten_thousandths(), 6942);
        }
        other => panic!("expected an apply, got {other:?}"),
    }

    let rejected = handle_frame(&[0x40, 5, 0, 0, 63, 49, 183, 23]);
    assert!(matches!(rejected, FrameAction::RejectChannel { channel: 5 }));

    let nan = f32::NAN.to_be_bytes();
    let dropped = handle_frame(&[0x40, 0, 0, 0, nan[0], nan[1], nan[2], nan[3]]);
    assert!(matches!(dropped, FrameAction::DropInvalidSpeed));

    let out_of_range = 1.2f32.to_be_bytes();
    let dropped = handle_frame(&[
        0x40,
        0,
        0,
        0,
        out_of_range[0],
        out_of_range[1],
        out_of_range[2],
        out_of_range[3],
    ]);
    assert!(matches!(dropped, FrameAction::DropInvalidSpeed));

    let protocol_error = handle_frame(&[0x20, 0, 0, 0, 1, 2, 3, 4]);
    assert!(matches!(protocol_error, FrameAction::ProtocolError));
}

#[test]
fn motor_controller_queues_instructions_in_order() {
    let mut state = RobotState::new();
    let left = SparkMotorController::new(0);
    let right = SparkMotorController::new(1);
    left.set_speed_percentage(&mut state, Speed::new(5000).unwrap());
    right.set_speed_percentage(&mut state, Speed::new(-5000).unwrap());
    let queued = state.take_outgoing();
    assert_eq!(
        queued,
        vec![
            LinkageToCarburetor::MotorInstruction {
                channel: 0,
                speed: Speed::new(5000).unwrap(),
            },
            LinkageToCarburetor::MotorInstruction {
                channel: 1,
                speed: Speed::new(-5000).unwrap(),
            },
        ]
    );
    assert!(state.take_outgoing().is_empty());
}

#[test]
fn shutdown_commands_every_channel_to_neutral() {
    let channels = vec![0u8, 1];
    let instructions = shutdown_instructions(&channels);
    assert_eq!(
        instructions,
        vec![
            LinkageToCarburetor::MotorInstruction { channel: 0, speed: Speed::neutral() },
            LinkageToCarburetor::MotorInstruction { channel: 1, speed: Speed::neutral() },
        ]
    );
}

#[test]
fn default_config_wires_the_usual_installation() {
    let config = LinkageConfig::default();
    assert_eq!(*config.linkage_lib().port(), 12362);
    assert_eq!(config.linkage_lib().carburetor_address().port, 48862);
    assert_eq!(config.linkage_lib().carburetor_address().host, "0.0.0.0");
    assert_eq!(config.carburetor().port(), 48862);
    assert_eq!(config.carburetor().logger_port(), 7644);
    assert_eq!(config.cockpit().linkage_lib_address().host, "raspberrypi.local");
    assert_eq!(config.cockpit().linkage_lib_address().port, 12362);
    assert_eq!(config.cockpit().linkage_socket_address().port, 9999);
    assert_eq!(config.cockpit().gauge_address().port, 4226);
    assert_eq!(config.gauge().port(), 4226);
}

#[test]
fn set_cockpit_replaces_only_the_cockpit_section() {
    let mut config = LinkageConfig::default();
    let mut cockpit = config.cockpit().clone();
    cockpit.linkage_lib_address.port = 4242;
    config.set_cockpit(cockpit);
    assert_eq!(config.cockpit().linkage_lib_address().port, 4242);
    assert_eq!(config.carburetor().port(), 48862);
    assert_eq!(*config.linkage_lib().port(), 12362);
}

#[test]
fn gauge_records_hold_their_plain_values() {
    let gauge = Gauge::new(4226);
    assert_eq!(gauge.port(), 4226);
    let info = ServiceInfo {
        carburetor_status: true,
        gauge_status: false,
        linkage_socket_status: true,
    };
    assert!(info.carburetor_status && !info.gauge_status);
    let memory = Memory {
        swap: Some(Swap { used: 46, total: 47 }),
        mem: Some(Mem { used: 48, total: 49 }),
    };
    assert_eq!(memory.swap.unwrap().total, 47);
    assert_eq!(memory.mem.unwrap().used, 48);
}
