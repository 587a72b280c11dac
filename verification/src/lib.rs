//! Clock-tree bring-up and monotonic timekeeping for a microcontroller that
//! drives a small status display.
//!
//! The library holds the decisions; the firmware around it performs the
//! register accesses and hands back what the hardware said.

pub mod boot;
pub mod distribution;
pub mod error;
pub mod oscillator;
pub mod screen;
pub mod synthesizer;
pub mod timekeeper;
pub mod units;
pub mod wait;
