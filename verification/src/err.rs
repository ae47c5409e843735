//! The errors that backlight control can end in.

use vstd::prelude::*;

verus! {

/// `std::io::Error`, carried through as the cause of a failure. Nothing is
/// known of what it holds.
#[verifier::external_type_specification]
#[verifier::external_body]
pub struct ExIoError(std::io::Error);

/// Why a backlight operation failed.
#[derive(Debug)]
pub enum BlibError {
    /// The backlight directory could not be listed.
    ReadBlDir(std::io::Error),
    /// The maximum brightness could not be read, or was no number.
    ReadMax,
    /// The current brightness could not be read, or was no number.
    ReadCurrent,
    /// Writing the brightness of device `dev` failed.
    WriteNewVal { err: std::io::Error, dev: String },
    /// No device was found, or the named device has no brightness file.
    NoDeviceFound,
    /// A write failed in the middle of a sweep.
    SweepError(std::io::Error),
    /// The value asked for is above what the device supports.
    ValueTooLarge { given: u32, supported: u32 },
}

pub type BlResult<T> = Result<T, BlibError>;

} // verus!
