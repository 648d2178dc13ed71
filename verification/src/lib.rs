//! Verified core of the Apogee observatory-control application: theme
//! selection, the workbench/workspace/dock layout model, the shared state
//! between the UI and the planetarium renderer, and the camera driver's
//! connection and capture decisions.
pub mod app_state;
pub mod theme;
pub mod workspace;
pub mod planetarium;
pub mod apogee_planetarium;
pub mod gphoto;
pub mod protocol;
pub mod sequence;
pub mod viewport;
