//! Telemetry node logic: a latest-value slot between the sensor and the
//! transmitter, the wire encoding of a sample, and the decisions of the
//! three long-running tasks (sample publisher, link manager, telemetry
//! transmitter), each a transition function from state and event to the
//! next state and action.
pub mod boot;
pub mod codec;
pub mod link;
pub mod sample;
pub mod sense;
pub mod slot;
pub mod transmit;
