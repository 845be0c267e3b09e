//! Decision logic of a small weather-bulletin relay.
//!
//! The relay looks for the most recent hourly bulletin of one station, walking
//! back from the current hour, and republishes the latest value of every sensor
//! as a flat mapping from sensor type code to number.
//!
//! Everything here is a function from plain values to plain values. Network
//! traffic and the decoding of the bulletin's markup are performed by the
//! caller, which feeds their outcomes back into the state machines below.

pub mod model;
pub mod readings;
pub mod extract;
pub mod decimal;
pub mod resolver;
pub mod clock;
pub mod config;
pub mod dispatch;
