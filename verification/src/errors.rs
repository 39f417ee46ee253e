//! The failures that the engine can signal.

use vstd::prelude::*;

verus! {

/// A failure reported by one call into the engine. Each belongs to that one
/// call; there is no partial success and nothing is retried.
#[derive(Clone, Copy, Debug, PartialEq, Eq, Structural)]
pub enum Error {
    /// The engine answered a load with a null handle. It gives no reason, so
    /// a missing file, a damaged one and an unsuitable one all look alike.
    LoadModelError,
    /// The engine answered a release with something other than success. What
    /// became of the model's memory is then unknown, and the release must not
    /// be tried again.
    FreeModelError,
}

} // verus!
