//! The deterministic finite-state transducer that drives the daemon's
//! lifecycle: its states, inputs, output actions, and transition table.

use vstd::prelude::*;

verus! {

/// Internal state of the lifecycle state machine. `Die` is the terminal
/// state; the externally observable counterpart is `DaemonState::Stopped`.
#[derive(Debug, Clone, Copy, PartialEq, Eq, Structural)]
pub enum DaemonStateMachineState {
    Init,
    Running,
    Upgrading,
    Interrupted,
    Die,
}

/// Lifecycle events: pure tags travelling on the event queue.
#[derive(Debug, Clone, Copy, PartialEq, Eq, Structural)]
pub enum DaemonStateMachineInput {
    Mount,
    Takeover,
    Successful,
    Exit,
    Stop,
}

/// Actions the state machine emits on a transition, carried out by the
/// daemon's service hooks.
#[derive(Debug, Clone, Copy, PartialEq, Eq, Structural)]
pub enum DaemonStateMachineOutput {
    StartService,
    TerminateFuseService,
    Umount,
    Restore,
}

/// The transition table. `None` means the input is not accepted in the given
/// state: a protocol violation.
pub open spec fn spec_transition(
    s: DaemonStateMachineState,
    i: DaemonStateMachineInput,
) -> Option<(DaemonStateMachineState, Option<DaemonStateMachineOutput>)> {
    match (s, i) {
        (DaemonStateMachineState::Init, DaemonStateMachineInput::Mount) => Some(
            (DaemonStateMachineState::Running, Some(DaemonStateMachineOutput::StartService)),
        ),
        (DaemonStateMachineState::Init, DaemonStateMachineInput::Takeover) => Some(
            (DaemonStateMachineState::Upgrading, Some(DaemonStateMachineOutput::Restore)),
        ),
        (DaemonStateMachineState::Init, DaemonStateMachineInput::Stop) => Some(
            (DaemonStateMachineState::Die, Some(DaemonStateMachineOutput::Umount)),
        ),
        (DaemonStateMachineState::Running, DaemonStateMachineInput::Exit) => Some(
            (
                DaemonStateMachineState::Interrupted,
                Some(DaemonStateMachineOutput::TerminateFuseService),
            ),
        ),
        (DaemonStateMachineState::Running, DaemonStateMachineInput::Stop) => Some(
            (DaemonStateMachineState::Die, Some(DaemonStateMachineOutput::Umount)),
        ),
        (DaemonStateMachineState::Upgrading, DaemonStateMachineInput::Successful) => Some(
            (DaemonStateMachineState::Running, Some(DaemonStateMachineOutput::StartService)),
        ),
        (DaemonStateMachineState::Interrupted, DaemonStateMachineInput::Stop) => Some(
            (DaemonStateMachineState::Die, None),
        ),
        _ => None,
    }
}

/// Consumes one input in state `s`: the executable form of the transition
/// table.
pub fn transition(
    s: DaemonStateMachineState,
    i: DaemonStateMachineInput,
) -> (r: Option<(DaemonStateMachineState, Option<DaemonStateMachineOutput>)>)
    ensures
        r == spec_transition(s, i),
{
    match (s, i) {
        (DaemonStateMachineState::Init, DaemonStateMachineInput::Mount) => Some(
            (DaemonStateMachineState::Running, Some(DaemonStateMachineOutput::StartService)),
        ),
        (DaemonStateMachineState::Init, DaemonStateMachineInput::Takeover) => Some(
            (DaemonStateMachineState::Upgrading, Some(DaemonStateMachineOutput::Restore)),
        ),
        (DaemonStateMachineState::Init, DaemonStateMachineInput::Stop) => Some(
            (DaemonStateMachineState::Die, Some(DaemonStateMachineOutput::Umount)),
        ),
        (DaemonStateMachineState::Running, DaemonStateMachineInput::Exit) => Some(
            (
                DaemonStateMachineState::Interrupted,
                Some(DaemonStateMachineOutput::TerminateFuseService),
            ),
        ),
        (DaemonStateMachineState::Running, DaemonStateMachineInput::Stop) => Some(
            (DaemonStateMachineState::Die, Some(DaemonStateMachineOutput::Umount)),
        ),
        (DaemonStateMachineState::Upgrading, DaemonStateMachineInput::Successful) => Some(
            (DaemonStateMachineState::Running, Some(DaemonStateMachineOutput::StartService)),
        ),
        (DaemonStateMachineState::Interrupted, DaemonStateMachineInput::Stop) => Some(
            (DaemonStateMachineState::Die, None),
        ),
        _ => None,
    }
}

} // verus!
