//! Planning the logical-device creation call for a chosen physical device.
//!
//! The factory locates the graphics family again on the chosen device,
//! requests one queue on it at the fixed maximum priority (the caller
//! supplies that constant to the driver; there is no priority configuration
//! surface), and passes the required device extensions through. The
//! creation call itself is the driver boundary and stays with the caller.

use vstd::prelude::*;

use crate::error::BootstrapError;
use crate::queue::{find_queue_families, has_graphics_family, is_first_graphics, QueueFamily};

verus! {

/// Everything the device-creation call needs: the queue families to open,
/// one queue each, and the extensions to enable. The family list is built
/// as a de-duplicated set; with the current policy it is always the
/// singleton of the graphics family.
pub struct DeviceRequest {
    pub queue_family_indices: Vec<u32>,
    pub enabled_extensions: Vec<Vec<u8>>,
}

/// Plans the logical-device creation call.
///
/// Selection admits no device without a graphics family, so a missing one
/// here is an internal-invariant violation and fails loudly rather than
/// silently defaulting a queue index. On success the request names exactly
/// the first graphics-capable family and carries the desired extensions
/// unchanged.
pub fn plan_logical_device(
    queue_families: &Vec<QueueFamily>,
    desired_extensions: Vec<Vec<u8>>,
) -> (r: Result<DeviceRequest, BootstrapError>)
    requires
        queue_families@.len() <= u32::MAX,
    ensures
        match r {
            Ok(req) => {
                &&& req.queue_family_indices@.len() == 1
                &&& is_first_graphics(queue_families@, req.queue_family_indices@[0] as int)
                &&& req.enabled_extensions@ == desired_extensions@
            },
            Err(e) => {
                &&& e == BootstrapError::InvariantViolated
                &&& !has_graphics_family(queue_families@)
            },
        },
{
    let ids = find_queue_families(queue_families);
    let graphics = match ids.graphics_family {
        None => {
            return Err(BootstrapError::InvariantViolated);
        },
        Some(g) => g,
    };
    let mut queue_family_indices: Vec<u32> = Vec::new();
    queue_family_indices.push(graphics);
    Ok(DeviceRequest { queue_family_indices, enabled_extensions: desired_extensions })
}

} // verus!
