//! The event loop's externally visible state machine.
//!
//! The GUI thread's loop sees two posted event kinds — a request to
//! dispatch, and a shutdown — beside the toolkit's own window events.
//! Its state is `Running` until the last window closes (or shutdown
//! asks for the same), after which it is `Exiting`, a terminal state:
//! `spec_loop_transition` never leaves it.
//!
//! The loop body itself belongs to the embedder (it owns the toolkit);
//! the decisions it takes each step live here and in `context`.

use crate::message::ApiRequest;
use vstd::prelude::*;

verus! {

/// An event posted into the GUI thread's queue from outside.
pub enum UserEvent {
    /// A decoded command to dispatch on the GUI thread.
    Request(ApiRequest),
    /// A request for orderly termination.
    Shutdown,
}

/// The loop's externally visible state.
#[derive(Clone, Copy, Debug, PartialEq, Eq, Structural)]
pub enum LoopState {
    Running,
    Exiting,
}

/// Where one step leaves the loop: `Exiting` is terminal, and a close
/// signal ends a running loop.
pub open spec fn spec_loop_transition(state: LoopState, close_signal: bool) -> LoopState {
    match state {
        LoopState::Exiting => LoopState::Exiting,
        LoopState::Running => if close_signal {
            LoopState::Exiting
        } else {
            LoopState::Running
        },
    }
}

/// Advances the loop state after one event, exactly as
/// `spec_loop_transition` says.
pub fn loop_transition(state: LoopState, close_signal: bool) -> (r: LoopState)
    ensures
        r == spec_loop_transition(state, close_signal),
{
    match state {
        LoopState::Exiting => LoopState::Exiting,
        LoopState::Running => if close_signal {
            LoopState::Exiting
        } else {
            LoopState::Running
        },
    }
}

/// `Exiting` is terminal: no later signal revives the loop.
pub proof fn lemma_exiting_terminal(close_signal: bool)
    ensures
        spec_loop_transition(LoopState::Exiting, close_signal) == LoopState::Exiting,
{
}

} // verus!
