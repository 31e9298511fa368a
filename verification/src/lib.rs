//! A verified control plane for stackful, asymmetric coroutines.
//!
//! The crate tracks, for one execution thread, every coroutine's control
//! block: its state, its storage channel and its place in the chain of
//! active resumes. Each operation is a total function on that record with a
//! contract over a mathematical model, so that a front end which owns the
//! native stacks and performs the context switches can follow its decisions
//! without re-deriving any rule.
//!
//! - `state`, `error`: the states of a coroutine and the outcomes of the
//!   operations, with the native codes that stand for them.
//! - `model`: the record of a thread as a plain value, its invariant, and
//!   every operation as a function on it.
//! - `wellformed`, `laws`: the proofs that the operations keep the
//!   invariant, and what follows from it.
//! - `registry`: the executable record, one per thread.
//! - `coroutine`: the owning handle of a coroutine.

pub mod coroutine;
pub mod error;
pub mod laws;
pub mod model;
pub mod registry;
pub mod state;
pub mod wellformed;

pub use coroutine::{running, yield_current, yield_current_unsafe, Coroutine};
pub use error::CoroutineError;
pub use model::{DEFAULT_STACK_SIZE, DEFAULT_STORAGE_SIZE, MIN_STACK_SIZE};
pub use registry::Registry;
pub use state::CoroutineState;
