//! The ways the bootstrap sequence can fail.
//!
//! Every failure here is terminal for the bootstrap: the caller that drives
//! the sequence turns the error into process termination with the error's
//! message. Nothing at this layer is retried.

use vstd::prelude::*;

verus! {

/// One terminal failure of the bootstrap sequence.
#[derive(Clone, Copy, Debug, PartialEq, Eq, Structural)]
pub enum BootstrapError {
    /// A requested validation layer is missing from the driver's layer list.
    MissingValidationLayers,
    /// A requested extension is missing from the enumerated extension list.
    MissingExtensions,
    /// Device enumeration was empty, or every device was disqualified.
    NoSuitableDevice,
    /// A call into the driver itself failed.
    DriverCallFailed,
    /// A step found a condition that earlier steps were meant to rule out,
    /// such as a selected device without a graphics family.
    InvariantViolated,
}

impl BootstrapError {
    /// The diagnosable message that the terminal report carries.
    pub fn message(&self) -> (r: &'static str)
        ensures
            r@ == match *self {
                BootstrapError::MissingValidationLayers => "validation layers requested, but not available!"@,
                BootstrapError::MissingExtensions => "extensions requested are not available!"@,
                BootstrapError::NoSuitableDevice => "failed to find a suitable physical device!"@,
                BootstrapError::DriverCallFailed => "a driver call failed!"@,
                BootstrapError::InvariantViolated => "selected device lacks a graphics queue family!"@,
            },
    {
        match *self {
            BootstrapError::MissingValidationLayers => "validation layers requested, but not available!",
            BootstrapError::MissingExtensions => "extensions requested are not available!",
            BootstrapError::NoSuitableDevice => "failed to find a suitable physical device!",
            BootstrapError::DriverCallFailed => "a driver call failed!",
            BootstrapError::InvariantViolated => "selected device lacks a graphics queue family!",
        }
    }
}

} // verus!
