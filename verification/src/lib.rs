//! Verified decision logic of a GPU fan controller that holds a target temperature.
//!
//! - `hysteresis`: when the fans are switched on and off, and when closed-loop
//!   control starts afresh.
//! - `control_loop`: the order in which GPUs are read and commanded, and how the
//!   program winds down on a failure or on a termination request.
//! - `interface`: how the detected GPUs are listed for the log.
pub mod hysteresis;
pub mod control_loop;
pub mod interface;
