//! Relay countdown firmware logic: a millisecond clock advanced by a timer
//! interrupt, and the main-loop controller that samples a button and drives
//! a relay for a fixed number of one-second ticks.

pub mod clock;
pub mod controller;
