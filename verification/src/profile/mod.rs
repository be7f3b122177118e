//! The profile document, the publisher rules, and the authorization of updates.

pub mod display;
pub mod key_value;
pub mod path;
pub mod publishers;
pub mod schema;
pub mod time;
pub mod update;
