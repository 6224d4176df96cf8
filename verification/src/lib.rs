//! Firmware update protocol for DualSense controllers, carried over HID
//! feature reports.
//!
//! The crate holds the protocol itself and performs no I/O: it encodes command
//! reports, decodes what the device answers, and decides what a driver has to
//! do next. The driver owns the device handle and the clock.

pub mod chunking;
pub mod cli;
pub mod error;
pub mod hid;
pub mod messages;
pub mod protocol;
pub mod text;
pub mod update;
