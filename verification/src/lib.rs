//! Compute display-backlight brightness adjustments without touching the
//! hardware: discover a usable device from candidate readings, translate
//! between raw driver units and user-facing percentages, and resolve a
//! requested operation (get/set/up/down) into a final raw target that is
//! always within the device's range.
//!
//! All I/O — reading `/sys/class/backlight`, talking to logind over DBus,
//! command-line handling — lives outside this crate; callers hand in the
//! bytes they read and receive plain values back.

pub mod convert;
pub mod error;
pub mod parse;
pub mod device;
pub mod render;
pub mod resolve;

pub use convert::{to_percent, from_percent};
pub use error::Error;
pub use parse::parse_brightness_value;
pub use render::format_readout;
pub use device::{
    Backlight, Candidate, FileReading, candidate_is_valid, find_first_backlight,
    use_specific_backlight,
};
pub use resolve::{Policy, Operation, Resolution, resolve};
