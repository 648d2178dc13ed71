use vstd::prelude::*;

verus! {

/// The states a camera driver can be in.
pub trait DriverState {}

/// A driver that has not found a camera yet.
pub struct Uninitialized;

impl DriverState for Uninitialized {}

/// A camera driver in state `S`.
pub struct Driver<S: DriverState> {
    state: S,
}

impl<S: DriverState> Driver<S> {
    pub closed spec fn spec_state(&self) -> S {
        self.state
    }

    /// A driver in the given state.
    pub fn with_state(state: S) -> (driver: Self)
        ensures
            driver.spec_state() == state,
    {
        Driver { state }
    }

    pub fn state(&self) -> (state: &S)
        ensures
            *state == self.spec_state(),
    {
        &self.state
    }

    pub fn into_state(self) -> (state: S)
        ensures
            state == self.spec_state(),
    {
        self.state
    }
}

impl Default for Driver<Uninitialized> {
    fn default() -> (driver: Self)
        ensures
            driver.spec_state() == Uninitialized,
    {
        Driver { state: Uninitialized }
    }
}

} // verus!
