use vstd::prelude::*;

verus! {

/// Why an exposure failed.
#[derive(Debug, Clone, PartialEq)]
pub enum CaptureError {
    /// The exposure was interrupted (a hardware reset is in progress).
    Interrupted,
    /// The driver's task ended or its channel closed.
    ActorDisconnected,
    /// The hardware failed for good.
    Fatal(String),
}

} // verus!
