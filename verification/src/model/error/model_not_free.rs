//! The two ways an exclusivity reclaim can fail. Both are recoverable: they
//! cost the current cycle, never the process.

use vstd::prelude::*;

verus! {

/// Why the manager could not get a mutable view of the model handle.
#[derive(Debug, Clone, Copy, PartialEq, Eq, Structural)]
pub enum ModelNotFreeError {
    /// The count of outstanding holders never came down to one within the
    /// configured deadline.
    WaitTimeoutExceeded,
    /// The count was seen at one, but materializing the mutable view still
    /// failed: a new holder appeared in the window between the check and
    /// the acquisition.
    ArcGetMutFailed,
}

impl ModelNotFreeError {
    /// The description `message` returns: one shared line for both
    /// variants.
    pub open spec fn spec_message(self) -> Seq<char> {
        "Model was not free when model manager expect"@
    }

    /// A short human-readable description, for surfaces outside the core.
    pub fn message(&self) -> (r: &'static str)
        ensures
            r@ == self.spec_message(),
    {
        "Model was not free when model manager expect"
    }
}

} // verus!
