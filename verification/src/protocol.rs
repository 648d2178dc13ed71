use vstd::prelude::*;

verus! {

/// What the camera driver reports of the camera.
#[derive(Clone, Debug, PartialEq)]
pub enum CameraStatus {
    Disconnected,
    Ready,
    Recovering { attempt: u32, reason: String },
    Fatal(String),
}

impl CameraStatus {
    /// Whether the camera is ready to take exposures.
    pub fn is_ready(&self) -> (ready: bool)
        ensures
            ready == (*self is Ready),
    {
        match self {
            CameraStatus::Ready => true,
            _ => false,
        }
    }
}

} // verus!
