//! Client-side implementation of a flight simulator's UDP telemetry and
//! control protocol: wire codec for the four framed message kinds, beacon
//! discovery bookkeeping, the dataref subscription store, and the session
//! state machine that orders discovery, subscription and teardown.

pub mod beacon;
pub mod beacon_data;
pub mod command_handler;
pub mod consts;
pub mod dataref;
pub mod dataref_handler;
pub mod dataref_type;
pub mod decimal;
pub mod errors;
pub mod net;
pub mod session;
pub mod shared_map;
pub mod utils;
