//! Motor controllers: the interface a subsystem uses to command a motor
//! speed.
//!
//! Setting a speed queues one motor instruction on the shared robot
//! state; the connection thread drains the queue to the actuator socket
//! in order, so every commanded speed is delivered exactly once.

use vstd::prelude::*;
use crate::protocol::LinkageToCarburetor;
use crate::robot_state::RobotState;
use crate::speed::Speed;

verus! {

/// Used to control Spark-branded motor controllers on one actuator
/// channel.
#[derive(Debug, Clone, Copy)]
pub struct SparkMotorController {
    channel: u8,
}

impl SparkMotorController {
    /// The actuator channel this controller commands.
    pub closed spec fn spec_channel(self) -> u8 {
        self.channel
    }

    /// Creates a new [`SparkMotorController`] for the given channel.
    pub fn new(channel: u8) -> (r: SparkMotorController)
        ensures
            r.spec_channel() == channel,
    {
        SparkMotorController { channel }
    }

    /// Commands the motor speed: queues one instruction for this
    /// controller's channel at the given speed, behind everything
    /// already queued.
    pub fn set_speed_percentage(&self, state: &mut RobotState, speed: Speed)
        ensures
            final(state).outgoing() == old(state).outgoing().push(
                LinkageToCarburetor::MotorInstruction { channel: self.spec_channel(), speed },
            ),
            final(state).spec_manager() == old(state).spec_manager(),
    {
        state.send_instruction(
            LinkageToCarburetor::MotorInstruction { channel: self.channel, speed },
        );
    }
}

} // verus!
