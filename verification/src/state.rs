//! The four states of a coroutine.

use vstd::prelude::*;

verus! {

/// Where a coroutine stands in its life cycle.
#[derive(Debug, Clone, Copy, PartialEq, Eq, Structural)]
pub enum CoroutineState {
    /// The entry routine has returned, or the control block was released.
    Dead,
    /// The coroutine has resumed another one and waits for it.
    Normal,
    /// The coroutine is executing: it is the top of its thread's chain.
    Running,
    /// The coroutine is not executing and can be resumed.
    Suspended,
}

/// The state that a native state code stands for. Codes count the states in
/// the order dead, normal, running, suspended; any other code reads as dead.
pub open spec fn state_of_code(code: u32) -> CoroutineState {
    if code == 1 {
        CoroutineState::Normal
    } else if code == 2 {
        CoroutineState::Running
    } else if code == 3 {
        CoroutineState::Suspended
    } else {
        CoroutineState::Dead
    }
}

impl CoroutineState {
    /// Decodes a native state code.
    pub fn from_raw(state: u32) -> (r: Self)
        ensures
            r == state_of_code(state),
    {
        match state {
            1 => CoroutineState::Normal,
            2 => CoroutineState::Running,
            3 => CoroutineState::Suspended,
            _ => CoroutineState::Dead,
        }
    }

    /// Whether the coroutine is on its thread's chain of active resumes.
    pub open spec fn is_active(self) -> bool {
        self == CoroutineState::Running || self == CoroutineState::Normal
    }
}

} // verus!
