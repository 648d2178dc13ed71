use vstd::prelude::*;

verus! {

/// Application-wide state (empty for now).
pub struct AppState {}

impl AppState {
    pub fn new() -> (state: Self)
        ensures
            state == (AppState {}),
    {
        AppState {}
    }
}

} // verus!
