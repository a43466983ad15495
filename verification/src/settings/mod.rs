//! Application settings: where they live, how they are stored, and how
//! writes to them are scheduled.

pub mod flow;
pub mod messages;
pub mod path;
pub mod startup;
pub mod store;
pub mod write_pump;
