//! The runtime process-supervisor state machine.
//!
//! The supervisor owns a two-state machine.  While `Disabled`, an enable
//! request spawns the actuator process and the robot program, waits for
//! the readiness notification, records both process handles and moves to
//! `Enabled`; while already `Enabled`, an enable request changes nothing.
//! A disable request hands back every recorded child for termination and
//! moves to `Disabled`; while already `Disabled` it changes nothing.
//! Either way the caller is owed an acknowledgement reply, even when the
//! request was a no-op against the current state.
//!
//! Spawning, signal handling and process termination are operating-system
//! work and stay with the caller: this machine decides, records, and
//! answers.  Children are tracked as plain handle identifiers the caller
//! assigns at spawn time.

use vstd::prelude::*;
use crate::protocol::RuntimeToBackendMessage;

verus! {

/// Whether the supervised robot program is running, and under which
/// recorded child processes.
#[derive(Debug)]
pub enum LinkageState {
    Enabled(Vec<u64>),
    Disabled,
}

/// The mathematical content of the supervisor state.
pub enum LinkageStateView {
    Enabled(Seq<u64>),
    Disabled,
}

/// What an enable request does: record the freshly spawned children and
/// move to `Enabled` when disabled, change nothing when already
/// enabled, and reply `Enabled` either way.
pub open spec fn spec_enable(s: LinkageStateView, children: Seq<u64>) -> (
    LinkageStateView,
    RuntimeToBackendMessage,
) {
    match s {
        LinkageStateView::Disabled => (
            LinkageStateView::Enabled(children),
            RuntimeToBackendMessage::Enabled,
        ),
        LinkageStateView::Enabled(recorded) => (
            LinkageStateView::Enabled(recorded),
            RuntimeToBackendMessage::Enabled,
        ),
    }
}

/// What a disable request does: hand back every recorded child for
/// termination and move to `Disabled` (a no-op when already disabled),
/// and reply `Disabled` either way.
pub open spec fn spec_disable(s: LinkageStateView) -> (
    LinkageStateView,
    RuntimeToBackendMessage,
    Seq<u64>,
) {
    match s {
        LinkageStateView::Enabled(recorded) => (
            LinkageStateView::Disabled,
            RuntimeToBackendMessage::Disabled,
            recorded,
        ),
        LinkageStateView::Disabled => (
            LinkageStateView::Disabled,
            RuntimeToBackendMessage::Disabled,
            Seq::<u64>::empty(),
        ),
    }
}

/// The supervisor owned by one backend connection.
#[derive(Debug)]
pub struct State {
    state: LinkageState,
}

impl View for State {
    type V = LinkageStateView;

    closed spec fn view(&self) -> LinkageStateView {
        match self.state {
            LinkageState::Enabled(ref children) => LinkageStateView::Enabled(children@),
            LinkageState::Disabled => LinkageStateView::Disabled,
        }
    }
}

impl State {
    /// A new supervisor starts disabled.
    pub fn new() -> (r: State)
        ensures
            r@ == LinkageStateView::Disabled,
    {
        State { state: LinkageState::Disabled }
    }

    /// Whether an enable request must spawn the child processes and wait
    /// for readiness before completing: exactly while disabled.
    pub fn needs_spawn(&self) -> (r: bool)
        ensures
            r == (self@ is Disabled),
    {
        match self.state {
            LinkageState::Disabled => true,
            LinkageState::Enabled(_) => false,
        }
    }

    /// Completes an enable request.  The caller spawns the children and
    /// observes readiness first, exactly when [`Self::needs_spawn`]
    /// says so, and passes the handles of what it spawned; while already
    /// enabled nothing was spawned and nothing changes.  Returns the
    /// reply owed to the backend.
    pub fn enable(&mut self, children: Vec<u64>) -> (reply: RuntimeToBackendMessage)
        ensures
            ({
                let (s2, owed) = spec_enable(old(self)@, children@);
                final(self)@ == s2 && reply == owed
            }),
    {
        match self.state {
            LinkageState::Disabled => {
                self.state = LinkageState::Enabled(children);
            },
            LinkageState::Enabled(_) => {},
        }
        RuntimeToBackendMessage::Enabled
    }

    /// Completes a disable request: moves to `Disabled` and returns the
    /// reply owed to the backend together with every recorded child,
    /// which the caller must terminate and reap, in order.
    pub fn disable(&mut self) -> (r: (RuntimeToBackendMessage, Vec<u64>))
        ensures
            ({
                let (s2, owed, to_kill) = spec_disable(old(self)@);
                final(self)@ == s2 && r.0 == owed && r.1@ == to_kill
            }),
    {
        let mut previous: LinkageState = LinkageState::Disabled;
        core::mem::swap(&mut self.state, &mut previous);
        match previous {
            LinkageState::Enabled(children) => (RuntimeToBackendMessage::Disabled, children),
            LinkageState::Disabled => (RuntimeToBackendMessage::Disabled, Vec::new()),
        }
    }
}

/// Enabling twice in a row without an intervening disable records
/// children only once: the first request (from disabled) spawns and
/// records, the second finds the machine enabled, asks for no spawn,
/// changes nothing, and both requests are answered `Enabled`.
pub proof fn lemma_enable_twice_spawns_once(children: Seq<u64>, ignored: Seq<u64>)
    ensures
        ({
            let (s1, reply1) = spec_enable(LinkageStateView::Disabled, children);
            let (s2, reply2) = spec_enable(s1, ignored);
            &&& s1 == LinkageStateView::Enabled(children)
            &&& !(s1 is Disabled)
            &&& s2 == s1
            &&& reply1 == RuntimeToBackendMessage::Enabled
            &&& reply2 == RuntimeToBackendMessage::Enabled
        }),
{
}

/// Disabling always ends disabled and hands back exactly the children
/// recorded at the last enable, so all previously-spawned children get
/// terminated and reaped; a disable while already disabled hands back
/// none.
pub proof fn lemma_disable_kills_all(s: LinkageStateView)
    ensures
        ({
            let (s2, reply, to_kill) = spec_disable(s);
            &&& s2 is Disabled
            &&& reply == RuntimeToBackendMessage::Disabled
            &&& (match s {
                LinkageStateView::Enabled(recorded) => to_kill == recorded,
                LinkageStateView::Disabled => to_kill == Seq::<u64>::empty(),
            })
        }),
{
}

} // verus!
