//! Locating a graphics-capable queue family on a physical device.
//!
//! The driver reports a device's queue families in index order; the index of
//! a family is purely positional. The locator records the lowest index whose
//! family can issue graphics commands.

use vstd::prelude::*;

verus! {

/// Flag bit marking a queue family that can issue graphics commands.
pub const GRAPHICS_QUEUE_FLAG: u32 = 1;

/// One queue family as the driver reports it: its capability flag bits and
/// how many queues it offers.
#[derive(Clone, Copy, Debug, PartialEq, Eq, Structural)]
pub struct QueueFamily {
    pub queue_flags: u32,
    pub queue_count: u32,
}

/// A family can serve graphics work when it carries the graphics flag and
/// offers at least one queue.
pub open spec fn graphics_capable(f: QueueFamily) -> bool {
    f.queue_flags & GRAPHICS_QUEUE_FLAG != 0 && f.queue_count > 0
}

/// Some family of `families` can serve graphics work.
pub open spec fn has_graphics_family(families: Seq<QueueFamily>) -> bool {
    exists|i: int| 0 <= i < families.len() && graphics_capable(families[i])
}

/// `i` is the lowest index of a graphics-capable family in `families`.
pub open spec fn is_first_graphics(families: Seq<QueueFamily>, i: int) -> bool {
    &&& 0 <= i < families.len()
    &&& graphics_capable(families[i])
    &&& forall|j: int| 0 <= j < i ==> !graphics_capable(families[j])
}

/// The queue family indices the bootstrap records for a device. The
/// presentation family is never filled and never required by the current
/// policy; it stands for a documented non-goal.
#[derive(Clone, Copy, Debug, PartialEq, Eq)]
pub struct QueueFamilyIds {
    pub graphics_family: Option<u32>,
    pub present_family: Option<u32>,
}

impl QueueFamilyIds {
    /// The record is complete as soon as a graphics family was found;
    /// presentation support is not part of the current policy.
    pub fn is_complete(&self) -> (r: bool)
        ensures
            r == (self.graphics_family is Some),
    {
        self.graphics_family.is_some()
    }
}

/// Scans the device's queue families in index order and records the first
/// graphics-capable one, lowest index first; the graphics field stays unset
/// when no family qualifies. Absence is no failure here: callers check
/// completeness themselves.
pub fn find_queue_families(families: &Vec<QueueFamily>) -> (r: QueueFamilyIds)
    requires
        families@.len() <= u32::MAX,
    ensures
        r.present_family is None,
        match r.graphics_family {
            Some(i) => is_first_graphics(families@, i as int),
            None => !has_graphics_family(families@),
        },
{
    let mut i: usize = 0;
    while i < families.len()
        invariant
            0 <= i <= families@.len(),
            families@.len() <= u32::MAX,
            forall|j: int| 0 <= j < i ==> !graphics_capable(families@[j]),
        decreases families@.len() - i,
    {
        if families[i].queue_flags & GRAPHICS_QUEUE_FLAG != 0 && families[i].queue_count > 0 {
            return QueueFamilyIds { graphics_family: Some(i as u32), present_family: None };
        }
        i = i + 1;
    }
    QueueFamilyIds { graphics_family: None, present_family: None }
}

} // verus!
