//! The offspring (spawned instance): its lifecycle state machine, its
//! message surface, and the messages it exchanges with the factory.

pub mod contract;
pub mod factory_msg;
pub mod msg;
pub mod state;
