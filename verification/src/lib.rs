//! Verified control logic for the Creative Sound BlasterX AE-5.
//!
//! Every decision the control tools make before touching hardware lives here:
//! which mixer writes are blocked and why, how the device state is summarized,
//! how software Effects graphs are built, and how the onboard lighting files
//! are parsed.  Reading and writing ALSA, PipeWire, D-Bus and sysfs is left to
//! the application crate, which hands this library plain values.

pub mod text;
pub mod cli;
pub mod controls;
pub mod device;
pub mod device_service;
pub mod device_state;
pub mod feature_parity;
pub mod tracelog;
pub mod sound_objects;
pub mod effects_chain;
pub mod eq_chain;
pub mod hardware_effects;
pub mod lighting;
pub mod signal_path;
pub mod editors;
pub mod panels;
pub mod profile;
