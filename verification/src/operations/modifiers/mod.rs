//! Operations that add to or change the states of a sprite sheet.

pub mod cutout;
pub mod dmi_masking;
pub mod error;
pub mod pairing;
pub mod rerun;
