//! Frame handling of the actuation process.
//!
//! The actuator receives eight-byte frames over its control connection
//! and drives one PWM channel per physical motor.  For each frame it
//! either applies a decoded speed to a channel, skips the frame, or
//! treats it as a protocol error for the connection; a single bad
//! instruction never terminates the control loop.

use vstd::prelude::*;
use crate::protocol::{Bytes, LinkageToCarburetor, MessageError, MotorFrameParse,
    spec_parse_motor_frame};
use crate::speed::Speed;

verus! {

/// Number of PWM channels the actuator drives.
pub const MOTOR_CHANNELS: u8 = 2;

/// What the control loop does with one received frame.
#[derive(Debug)]
pub enum FrameAction {
    /// Apply the speed to the PWM driver of the channel.
    Apply { channel: u8, speed: Speed },
    /// The instruction names a channel the actuator does not drive:
    /// report it and continue with the next frame.
    RejectChannel { channel: u8 },
    /// The instruction carries an unrepresentable speed: drop it and
    /// continue with the next frame.
    DropInvalidSpeed,
    /// The frame matches no known pattern: a protocol error that ends
    /// this control connection.
    ProtocolError,
}

/// Decides what the control loop does with one received frame: apply
/// the decoded speed when the frame is a motor instruction for a driven
/// channel, skip it when the channel is unknown or the speed is
/// unrepresentable, and flag a protocol error for every other frame.
pub fn handle_frame(bytes: &Bytes) -> (r: FrameAction)
    ensures
        match spec_parse_motor_frame(bytes@) {
            MotorFrameParse::Value { channel, tt } => {
                if channel < MOTOR_CHANNELS {
                    &&& r matches FrameAction::Apply { channel: applied, speed }
                    &&& applied == channel
                    &&& speed@ == tt
                } else {
                    r == (FrameAction::RejectChannel { channel })
                }
            },
            MotorFrameParse::BadSpeed => r is DropInvalidSpeed,
            MotorFrameParse::BadFrame => r is ProtocolError,
        },
{
    match LinkageToCarburetor::try_from_bytes(bytes) {
        Ok(LinkageToCarburetor::MotorInstruction { channel, speed }) => {
            if channel < MOTOR_CHANNELS {
                FrameAction::Apply { channel, speed }
            } else {
                FrameAction::RejectChannel { channel }
            }
        },
        Err(MessageError::InvalidSpeed(_)) => FrameAction::DropInvalidSpeed,
        Err(MessageError::UnknownMessage(_)) => FrameAction::ProtocolError,
    }
}

} // verus!
