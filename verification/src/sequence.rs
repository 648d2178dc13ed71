use vstd::prelude::*;

verus! {

/// Where an exposure is saved.
#[derive(Copy, Clone, Debug, PartialEq, Eq, Structural)]
pub enum SaveLocation {
    Camera,
    Server,
    Viewer,
}

/// Where and under which path a frame is saved. `save_locations` holds one
/// bit per `SaveLocation`, in declaration order from the lowest bit.
#[derive(Clone)]
pub struct SaveInfo {
    save_locations: u8,
    path: String,
}

/// One exposure of a sequence; its exposure time is in nanoseconds.
#[derive(Clone)]
pub struct Frame {
    exposure_time_nanos: u128,
    save_info: SaveInfo,
}

/// An imaging sequence: its frames, in order.
#[derive(Clone)]
pub struct Sequence {
    frames: Vec<Frame>,
}

} // verus!
