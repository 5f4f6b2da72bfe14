//! Operating modes of the console.

pub mod ap;
pub mod station;
