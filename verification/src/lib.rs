//! A device-discovery bridge for Bluetooth Low Energy.
//!
//! The bridge turns the operating system's callback-driven BLE discovery
//! facility into a uniform notification stream: the caller constructs the
//! bridge, starts it with a single device-discovered callback, and stops it
//! when done. Two sub-watchers feed the callback: one for raw over-the-air
//! advertisements and one for connected-device-information changes.
//!
//! All interaction with the OS Bluetooth subsystem is modelled by an
//! explicit [`os::OsEnv`] value that scripts the outcome of every OS call
//! and the address/identifier resolution tables, so the whole lifecycle and
//! delivery logic is verified; a thin unverified layer may bind the same
//! state machine to a real OS subsystem.

pub mod device;
pub mod error;
pub mod os;
pub mod watcher;
