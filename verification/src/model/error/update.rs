//! What an update cycle can fail with. Recoverable: the manager transitions
//! to `Stopped` and reports, it does not crash.

use vstd::prelude::*;

use super::model_not_free::ModelNotFreeError;

verus! {

/// Why one update cycle was aborted.
#[derive(Debug, Clone, Copy, PartialEq, Eq, Structural)]
pub enum UpdateError {
    /// Exclusive access to the model could not be reclaimed.
    ModelNotFree(ModelNotFreeError),
    /// The model snapshot could not be published: the consumer side of the
    /// snapshot channel is gone.
    CantSendToPresenter,
}

impl UpdateError {
    /// The description `message` returns, by variant.
    pub open spec fn spec_message(self) -> Seq<char> {
        match self {
            UpdateError::ModelNotFree(e) => e.spec_message(),
            UpdateError::CantSendToPresenter => "Error in model updating"@,
        }
    }

    /// A short human-readable description, for surfaces outside the core.
    pub fn message(&self) -> (r: &'static str)
        ensures
            r@ == self.spec_message(),
    {
        match *self {
            UpdateError::ModelNotFree(e) => e.message(),
            UpdateError::CantSendToPresenter => "Error in model updating",
        }
    }
}

impl From<ModelNotFreeError> for UpdateError {
    fn from(e: ModelNotFreeError) -> Self {
        UpdateError::ModelNotFree(e)
    }
}

impl vstd::std_specs::convert::FromSpecImpl<ModelNotFreeError> for UpdateError {
    open spec fn obeys_from_spec() -> bool {
        true
    }

    open spec fn from_spec(e: ModelNotFreeError) -> Self {
        UpdateError::ModelNotFree(e)
    }
}

} // verus!
