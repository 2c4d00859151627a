//! Verified core of a small networked robot control system.
//!
//! The crate covers the fixed eight-byte message protocol shared by every
//! process in the chain (operator console, backend, runtime supervisor,
//! robot program, actuator), the numeric encoding of motor speeds, the
//! runtime process-supervisor state machine, and the gamepad slot manager
//! that aggregates controller input for the robot's subsystems.

pub mod binary32;
pub mod carburetor;
pub mod cockpit;
pub mod config;
pub mod gamepad;
pub mod gamepad_manager;
pub mod gauge;
pub mod motors;
pub mod protocol;
pub mod ps_controller;
pub mod robot_state;
pub mod speed;
pub mod supervisor;
