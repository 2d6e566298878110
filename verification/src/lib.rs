//! Verified core of a graphics-accelerator bootstrap.
//!
//! The library holds the decision logic of the bootstrap sequence: matching
//! driver-reported property names, checking that requested validation layers
//! and extensions are available, locating a graphics-capable queue family,
//! scoring and selecting a physical device, and building the instance and
//! logical-device creation requests. The driver boundary itself (enumeration
//! and creation calls) and the window/event loop are platform glue and live
//! outside the library.

pub mod error;
pub mod instance;
pub mod logical;
pub mod names;
pub mod queue;
pub mod selection;
