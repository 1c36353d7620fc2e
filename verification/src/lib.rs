//! Control logic for a remote-controlled turret on a single-core
//! microcontroller: a monotonic tick clock, a software pulse-width
//! multiplexer that drives up to twelve actuators off one compare-match
//! timer, an ultrasonic ranging state machine driven by edge interrupts,
//! and a command dispatcher that turns decoded infrared remote commands
//! into bounded actuator motion.
//!
//! Hardware register access, pin I/O and busy-wait delays live outside this
//! crate; the modules here hold the state, the decisions and the arithmetic,
//! each with a contract.

pub mod clock;
pub mod hc_sr04;
pub mod ir;
pub mod servo;
pub mod turret;
