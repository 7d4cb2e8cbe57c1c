//! The manager's error taxonomy: what a failed cycle or a failed command
//! wait reports through the notification channel.

use vstd::prelude::*;

use self::update::UpdateError;

pub mod model_not_free;
pub mod update;

verus! {

/// Anything the manager reports through a notification: a failed update
/// cycle, or the loss of the command source while waiting stopped.
#[derive(Debug, Clone, Copy, PartialEq, Eq, Structural)]
pub enum ModelManagerError {
    UpdateError(UpdateError),
    /// The command source disconnected while the manager was blocked on it.
    RecvError,
}

impl ModelManagerError {
    /// The description `message` returns, by variant.
    pub open spec fn spec_message(self) -> Seq<char> {
        match self {
            ModelManagerError::UpdateError(e) => e.spec_message(),
            ModelManagerError::RecvError => "receiving on an empty and disconnected channel"@,
        }
    }

    /// A short human-readable description, for surfaces outside the core.
    pub fn message(&self) -> (r: &'static str)
        ensures
            r@ == self.spec_message(),
    {
        match *self {
            ModelManagerError::UpdateError(e) => e.message(),
            ModelManagerError::RecvError => "receiving on an empty and disconnected channel",
        }
    }
}

impl From<UpdateError> for ModelManagerError {
    fn from(e: UpdateError) -> Self {
        ModelManagerError::UpdateError(e)
    }
}

impl vstd::std_specs::convert::FromSpecImpl<UpdateError> for ModelManagerError {
    open spec fn obeys_from_spec() -> bool {
        true
    }

    open spec fn from_spec(e: UpdateError) -> Self {
        ModelManagerError::UpdateError(e)
    }
}

} // verus!
