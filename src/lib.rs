//! A typestate state machine for a kettle-like appliance that fills, heats and empties,
//! with a safety cut-off that every working state can fall into.

pub mod device;
pub mod states;
pub mod kettle;
pub mod machine;
