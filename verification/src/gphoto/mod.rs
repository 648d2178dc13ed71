pub mod actor;
pub mod driver;
pub mod handle;
pub mod types;
