//! Planning the root driver connection.
//!
//! The context factory checks the requested validation layers and instance
//! extensions against what the driver enumerates, and builds the request
//! that the creation call takes: application metadata, the packed target
//! version, and the validated name lists. The creation call itself is the
//! driver boundary and stays with the caller.

use vstd::prelude::*;

use crate::error::BootstrapError;
use crate::names::{all_present, all_present_in};

verus! {

/// Everything the instance-creation call needs, assembled only after every
/// requirement check passed.
pub struct InstanceRequest {
    pub application_name: Vec<u8>,
    pub api_version: u32,
    pub enabled_layers: Vec<Vec<u8>>,
    pub enabled_extensions: Vec<Vec<u8>>,
}

/// Packs a version triple, with its variant, into the single word the
/// driver expects: variant in the top 3 bits, then 7 bits of major, 10 of
/// minor and 12 of patch.
pub fn make_api_version(variant: u32, major: u32, minor: u32, patch: u32) -> (v: u32)
    requires
        variant < 8,
        major < 128,
        minor < 1024,
        patch < 4096,
    ensures
        v == variant * 0x2000_0000 + major * 0x40_0000 + minor * 0x1000 + patch,
{
    variant * 0x2000_0000 + major * 0x40_0000 + minor * 0x1000 + patch
}

/// Checks the requested capabilities and plans the instance-creation call.
///
/// When validation is required, every requested layer must be available;
/// in every case every requested instance extension must be available. A
/// missing layer fails with MissingValidationLayers, then a missing
/// extension with MissingExtensions; both are unrecoverable at this layer.
/// On success the request carries the application metadata and the
/// requested name lists unchanged.
pub fn plan_instance(
    validation_required: bool,
    application_name: Vec<u8>,
    api_version: u32,
    available_layers: &Vec<Vec<u8>>,
    requested_layers: Vec<Vec<u8>>,
    available_extensions: &Vec<Vec<u8>>,
    requested_extensions: Vec<Vec<u8>>,
) -> (r: Result<InstanceRequest, BootstrapError>)
    ensures
        match r {
            Ok(req) => {
                &&& validation_required ==> all_present_in(
                    available_layers.deep_view(),
                    requested_layers.deep_view(),
                )
                &&& all_present_in(
                    available_extensions.deep_view(),
                    requested_extensions.deep_view(),
                )
                &&& req.application_name@ == application_name@
                &&& req.api_version == api_version
                &&& req.enabled_layers@ == requested_layers@
                &&& req.enabled_extensions@ == requested_extensions@
            },
            Err(e) => match e {
                BootstrapError::MissingValidationLayers => validation_required
                    && !all_present_in(
                    available_layers.deep_view(),
                    requested_layers.deep_view(),
                ),
                BootstrapError::MissingExtensions => (validation_required ==> all_present_in(
                    available_layers.deep_view(),
                    requested_layers.deep_view(),
                )) && !all_present_in(
                    available_extensions.deep_view(),
                    requested_extensions.deep_view(),
                ),
                _ => false,
            },
        },
{
    if validation_required && !all_present(available_layers, &requested_layers) {
        return Err(BootstrapError::MissingValidationLayers);
    }
    if !all_present(available_extensions, &requested_extensions) {
        return Err(BootstrapError::MissingExtensions);
    }
    Ok(
        InstanceRequest {
            application_name,
            api_version,
            enabled_layers: requested_layers,
            enabled_extensions: requested_extensions,
        },
    )
}

} // verus!
