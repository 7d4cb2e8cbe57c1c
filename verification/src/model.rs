//! The model capability the manager drives, and the manager's own control
//! state.

use vstd::prelude::*;

use crate::input::Input;

pub mod counter_model;
pub mod error;
pub mod model_manager;

verus! {

/// The control-loop state of the manager itself. `Stopped` is the initial
/// state; `Exiting` is terminal — the loop breaks on it.
#[derive(Debug, Clone, Copy, PartialEq, Eq, Structural)]
pub enum State {
    Running,
    Stopped,
    Exiting,
}

/// The contract the manager drives: a two-phase update cycle over an
/// application-state object.
///
/// `prior` is the read-only phase: it may run while consumers still hold
/// clones of the handle, and must not need exclusive access. `update` is the
/// write phase: the manager calls it only through an exclusive view, handing
/// it the batch of inputs drained this cycle, in arrival order. The value
/// returned by either phase is threaded into the next phase as the
/// `PriorResult`; an implementation is free to ignore the inputs or the
/// threaded value. The capability knows nothing of channels or threads.
pub trait Model: Sized {
    /// An opaque, model-defined value carried from one cycle's read-only
    /// phase into the next cycle's write phase; `None` on the first cycle.
    type PriorResult;

    /// The read-only phase, on a shared view.
    fn prior(&self, prior_result: Option<Self::PriorResult>) -> Option<Self::PriorResult>;

    /// The write phase, on an exclusive view, consuming one drained batch.
    fn update(
        &mut self,
        prior_result: Option<Self::PriorResult>,
        inputs: &Vec<Input>,
    ) -> Option<Self::PriorResult>;
}

} // verus!
