//! Input-device state tracking.

pub mod keyboard;
