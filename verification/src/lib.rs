//! Verified core of a GPS spoofing detector for a small embedded platform.
//!
//! The platform carries one satellite-navigation receiver and one inertial
//! sensor on a register-addressed bus. Spoofing is detected by cross-checking
//! the satellite-reported position against a position dead-reckoned from
//! inertial samples. This crate holds the algorithmic core: raw three-axis
//! sample arithmetic, convergence-based averaging, sensor calibration, the
//! satellite-fix collection protocol, the countdown timer, and the
//! orchestrating state machine that raises the spoofing verdict.
//!
//! Floating-point work (unit conversion, the kinematic update, the haversine
//! distance) and all device I/O live outside this crate; the functions here
//! take and return plain integer values and carry full contracts.

pub mod averager;
pub mod axes;
pub mod calibration;
pub mod detector;
pub mod fix;
pub mod pin;
pub mod timer;
