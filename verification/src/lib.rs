//! Backlight control for Linux: choosing a device among those the kernel
//! lists, computing bounded brightness changes and planning smooth sweeps.
//!
//! The library decides and computes on plain values; reading the device
//! files, writing them and waiting between writes is left to the caller.

pub mod change;
pub mod control;
pub mod detect;
pub mod device;
pub mod err;
pub mod sweep;
pub mod text;

pub use change::{Change, Delay, Direction};
pub use control::{change_bl, set_bl, Action};
pub use device::{Device, Entry, FileState, BLDIR};
pub use err::{BlResult, BlibError};
pub use sweep::Sweep;
