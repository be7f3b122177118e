//! The versioned store of profiles.

pub mod change;
pub mod model;
pub mod retrieve;
pub mod table;
pub mod types;
