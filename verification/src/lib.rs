//! Typed decoding and control logic for a UPower client: wire values from the
//! bus become percentages, durations and states; property updates are filtered
//! into a sequence of decoded values; input events are turned into the remote
//! calls that adjust the keyboard backlight.

pub mod battery;
pub mod display_device;
pub mod dry_run;
pub mod error;
pub mod event;
pub mod keyboard;
pub mod label;
pub mod runner;
pub mod wire;
pub mod types;
