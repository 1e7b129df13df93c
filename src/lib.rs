//! Sitting-time tracker: classifies continuous sitting time into urgency
//! stages, integrates idle time, and decides when observers must be told.
#![allow(unused_imports)]

pub mod stage;
pub mod timer;
pub mod coordinator;
pub mod settings;
pub mod idle;
