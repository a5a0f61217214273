//! Authentication and authorization lifecycle of an electric-vehicle
//! charging session, written as a state machine: the manager decides, the
//! caller performs each outbound request and hands the reply back.

pub mod manager;
pub mod state;
pub mod lemmas;
