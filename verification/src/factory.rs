//! The factory (registry coordinator): it spawns offspring, authenticates
//! their registration, tracks their lifecycle, and answers queries.

pub mod contract;
pub mod msg;
pub mod state;
pub mod offspring_msg;
pub mod structs;
