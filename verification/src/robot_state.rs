//! Shared data of the robot program: the gamepad arena read by every
//! subsystem, and the outgoing queue of motor instructions bound for the
//! actuator connection.
//!
//! The event loop owns one value of this state behind a lock and hands
//! it to every subsystem callback; the connection threads aggregate
//! gamepad events into it and drain the queued instructions to the
//! actuator socket, in order, after every tick.  On shutdown every motor
//! channel is owed one neutral instruction before the process exits.

use vstd::prelude::*;
use crate::gamepad_manager::GamepadManager;
use crate::gamepad::GamepadView;
use crate::protocol::LinkageToCarburetor;
use crate::speed::Speed;

verus! {

/// Used to access data like gamepad input, and to queue motor
/// instructions for the actuator connection.
#[derive(Debug)]
pub struct RobotState {
    /// Responsible for managing the connected gamepads.
    pub gamepad_manager: GamepadManager,
    outbox_instructions: Vec<LinkageToCarburetor>,
}

impl RobotState {
    /// The motor instructions queued for the actuator connection, in
    /// send order.
    pub closed spec fn outgoing(self) -> Seq<LinkageToCarburetor> {
        self.outbox_instructions@
    }

    /// The gamepad arena of this state, for contracts that must say it
    /// was left untouched.
    pub closed spec fn spec_manager(self) -> GamepadManager {
        self.gamepad_manager
    }

    /// A fresh robot state: no gamepads seen, nothing queued.
    pub fn new() -> (r: RobotState)
        ensures
            r.spec_manager()@ == Seq::<Option<GamepadView>>::empty(),
            r.outgoing() == Seq::<LinkageToCarburetor>::empty(),
    {
        RobotState { gamepad_manager: GamepadManager::new(), outbox_instructions: Vec::new() }
    }

    /// Queues one motor instruction behind everything already queued.
    pub fn send_instruction(&mut self, instruction: LinkageToCarburetor)
        ensures
            final(self).outgoing() == old(self).outgoing().push(instruction),
            final(self).spec_manager() == old(self).spec_manager(),
    {
        self.outbox_instructions.push(instruction);
    }

    /// Hands the queued instructions to the connection thread, in send
    /// order, leaving the queue empty.
    pub fn take_outgoing(&mut self) -> (r: Vec<LinkageToCarburetor>)
        ensures
            r@ == old(self).outgoing(),
            final(self).outgoing() == Seq::<LinkageToCarburetor>::empty(),
            final(self).spec_manager() == old(self).spec_manager(),
    {
        let mut drained: Vec<LinkageToCarburetor> = Vec::new();
        core::mem::swap(&mut self.outbox_instructions, &mut drained);
        drained
    }
}

/// The instructions that must reach the actuator before the process
/// exits: one neutral speed for every listed motor channel, so that no
/// actuator is left engaged.
pub fn shutdown_instructions(channels: &Vec<u8>) -> (r: Vec<LinkageToCarburetor>)
    ensures
        r@.len() == channels@.len(),
        forall|i: int|
            0 <= i < r@.len() ==> (#[trigger] r@[i]).spec_channel() == channels@[i]
                && r@[i].spec_speed()@ == 0,
{
    let mut r: Vec<LinkageToCarburetor> = Vec::new();
    let mut i: usize = 0;
    while i < channels.len()
        invariant
            i <= channels.len(),
            r@.len() == i,
            forall|j: int|
                0 <= j < i ==> (#[trigger] r@[j]).spec_channel() == channels@[j]
                    && r@[j].spec_speed()@ == 0,
        decreases channels.len() - i,
    {
        let instruction = LinkageToCarburetor::MotorInstruction {
            channel: channels[i],
            speed: Speed::neutral(),
        };
        r.push(instruction);
        i = i + 1;
    }
    r
}

} // verus!
