//! The two loops between the file watcher and the builder, as state
//! machines.
//!
//! The forwarding loop takes what the watcher reports and passes a rebuild
//! request on for every change outside the excluded subtree. The rebuild
//! loop takes those requests, waits a short while after the first one,
//! swallows the requests that arrived meanwhile, and then asks for one
//! rebuild. Each machine is a function from a state and an input to the next
//! state and the action to perform; whoever runs a loop performs the action
//! to its end before it hands over the next input.

use vstd::prelude::*;
use crate::watcher::{is_excluded, ChangeEvent, WatchTarget};

verus! {

/// How long the rebuild loop waits after the first request of a burst, in
/// milliseconds.
pub const DEBOUNCE_MILLIS: u64 = 10;

/// What travels from the watcher to the forwarding loop.
#[derive(Debug)]
pub enum NotifyMsg {
    /// The watcher reported a change, or an error of its own.
    Event(Result<ChangeEvent, String>),
    /// The process is going away.
    Shutdown,
}

/// What travels from the forwarding loop to the rebuild loop.
#[derive(Clone, Copy, Debug, PartialEq, Eq, Structural)]
pub enum CargoMsg {
    /// A change occurred: the documentation is out of date.
    Run,
    /// The process is going away.
    Shutdown,
}

/// The states of the forwarding loop.
#[derive(Clone, Copy, Debug, PartialEq, Eq, Structural)]
pub enum ForwardState {
    Listening,
    Stopped,
}

/// What the forwarding loop does after an input.
#[derive(Clone, Copy, Debug, PartialEq, Eq, Structural)]
pub enum ForwardAction {
    /// Send a rebuild request to the rebuild loop.
    Forward,
    /// Nothing: the change lies in the excluded subtree.
    Ignore,
    /// Log the watcher's error and go on.
    Report,
    /// Leave the loop and release the watcher.
    Exit,
}

/// The states of the rebuild loop.
#[derive(Clone, Copy, Debug, PartialEq, Eq, Structural)]
pub enum RebuildState {
    /// Blocked until a message arrives.
    Idle,
    /// A request came in: taking what else has arrived, without blocking.
    Debouncing,
    Stopped,
}

/// What an attempt to receive from the request channel gave.
#[derive(Clone, Copy, Debug, PartialEq, Eq, Structural)]
pub enum RebuildInput {
    Message(CargoMsg),
    /// Nothing is waiting in the channel.
    Empty,
    /// Every sender is gone.
    Closed,
}

/// How the rebuild loop comes by its next input.
#[derive(Clone, Copy, Debug, PartialEq, Eq, Structural)]
pub enum Receive {
    /// Wait until a message arrives or the channel closes.
    Blocking,
    /// Take what is there, or learn that nothing is, without waiting.
    Polling,
    /// Take nothing more: the loop is over.
    Never,
}

/// What the rebuild loop does after an input.
#[derive(Clone, Copy, Debug, PartialEq, Eq, Structural)]
pub enum RebuildAction {
    /// Nothing but to take the next input.
    Continue,
    /// Sleep for so many milliseconds, to let a burst of requests arrive.
    Wait { millis: u64 },
    /// Run the builder once, and report how it ended.
    Rebuild,
    /// Leave the loop.
    Exit,
}

/// The transition of the forwarding loop. `received` is `None` when the
/// channel from the watcher has closed, which counts as a shutdown.
pub open spec fn forward_next(
    state: ForwardState,
    excluded: Seq<char>,
    received: Option<NotifyMsg>,
) -> (ForwardState, ForwardAction) {
    match state {
        ForwardState::Stopped => (ForwardState::Stopped, ForwardAction::Exit),
        ForwardState::Listening => match received {
            Some(NotifyMsg::Event(Ok(event))) => if is_excluded(
                event.paths.deep_view(),
                excluded,
            ) {
                (ForwardState::Listening, ForwardAction::Ignore)
            } else {
                (ForwardState::Listening, ForwardAction::Forward)
            },
            Some(NotifyMsg::Event(Err(_))) => (ForwardState::Listening, ForwardAction::Report),
            Some(NotifyMsg::Shutdown) | None => (ForwardState::Stopped, ForwardAction::Exit),
        },
    }
}

/// The transition of the rebuild loop.
pub open spec fn rebuild_next(state: RebuildState, input: RebuildInput) -> (
    RebuildState,
    RebuildAction,
) {
    match state {
        RebuildState::Stopped => (RebuildState::Stopped, RebuildAction::Exit),
        RebuildState::Idle => match input {
            RebuildInput::Message(CargoMsg::Run) => (
                RebuildState::Debouncing,
                RebuildAction::Wait { millis: DEBOUNCE_MILLIS },
            ),
            RebuildInput::Message(CargoMsg::Shutdown) | RebuildInput::Closed => (
                RebuildState::Stopped,
                RebuildAction::Exit,
            ),
            RebuildInput::Empty => (RebuildState::Idle, RebuildAction::Continue),
        },
        RebuildState::Debouncing => match input {
            RebuildInput::Message(CargoMsg::Run) => (
                RebuildState::Debouncing,
                RebuildAction::Continue,
            ),
            RebuildInput::Message(CargoMsg::Shutdown) => (
                RebuildState::Stopped,
                RebuildAction::Exit,
            ),
            RebuildInput::Empty | RebuildInput::Closed => (
                RebuildState::Idle,
                RebuildAction::Rebuild,
            ),
        },
    }
}

impl RebuildState {
    /// How the next input is taken in this state: an idle loop sleeps until
    /// something arrives, a debouncing one drains the channel without
    /// waiting, a stopped one takes nothing.
    pub open spec fn receive_spec(self) -> Receive {
        match self {
            RebuildState::Idle => Receive::Blocking,
            RebuildState::Debouncing => Receive::Polling,
            RebuildState::Stopped => Receive::Never,
        }
    }

    /// How to take the next input in this state.
    #[verifier::when_used_as_spec(receive_spec)]
    pub fn receive(self) -> (how: Receive)
        ensures
            how == self.receive_spec(),
    {
        match self {
            RebuildState::Idle => Receive::Blocking,
            RebuildState::Debouncing => Receive::Polling,
            RebuildState::Stopped => Receive::Never,
        }
    }
}

/// One step of the forwarding loop.
pub fn forward_step(
    state: ForwardState,
    target: &WatchTarget,
    received: &Option<NotifyMsg>,
) -> (next: (ForwardState, ForwardAction))
    ensures
        next == forward_next(state, target@.excluded, *received),
{
    match state {
        ForwardState::Stopped => (ForwardState::Stopped, ForwardAction::Exit),
        ForwardState::Listening => match received {
            Some(NotifyMsg::Event(Ok(event))) => {
                if target.triggers(event) {
                    (ForwardState::Listening, ForwardAction::Forward)
                } else {
                    (ForwardState::Listening, ForwardAction::Ignore)
                }
            },
            Some(NotifyMsg::Event(Err(_))) => (ForwardState::Listening, ForwardAction::Report),
            Some(NotifyMsg::Shutdown) => (ForwardState::Stopped, ForwardAction::Exit),
            None => (ForwardState::Stopped, ForwardAction::Exit),
        },
    }
}

/// One step of the rebuild loop.
pub fn rebuild_step(state: RebuildState, input: RebuildInput) -> (next: (
    RebuildState,
    RebuildAction,
))
    ensures
        next == rebuild_next(state, input),
{
    match state {
        RebuildState::Stopped => (RebuildState::Stopped, RebuildAction::Exit),
        RebuildState::Idle => match input {
            RebuildInput::Message(CargoMsg::Run) => (
                RebuildState::Debouncing,
                RebuildAction::Wait { millis: DEBOUNCE_MILLIS },
            ),
            RebuildInput::Message(CargoMsg::Shutdown) => (
                RebuildState::Stopped,
                RebuildAction::Exit,
            ),
            RebuildInput::Closed => (RebuildState::Stopped, RebuildAction::Exit),
            RebuildInput::Empty => (RebuildState::Idle, RebuildAction::Continue),
        },
        RebuildState::Debouncing => match input {
            RebuildInput::Message(CargoMsg::Run) => (
                RebuildState::Debouncing,
                RebuildAction::Continue,
            ),
            RebuildInput::Message(CargoMsg::Shutdown) => (
                RebuildState::Stopped,
                RebuildAction::Exit,
            ),
            RebuildInput::Empty => (RebuildState::Idle, RebuildAction::Rebuild),
            RebuildInput::Closed => (RebuildState::Idle, RebuildAction::Rebuild),
        },
    }
}

} // verus!
