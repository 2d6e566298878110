//! Scoring physical devices and selecting the best one.
//!
//! A device qualifies when its queue families are complete (a graphics
//! family exists) and every required device extension is available on it.
//! Disqualified devices score the sentinel -1; discrete accelerators score
//! 1000, every other qualifying device 0. Selection keeps the first device
//! that achieves the highest score, so enumeration order breaks ties.

use vstd::prelude::*;

use crate::error::BootstrapError;
use crate::names::{all_present, all_present_in};
use crate::queue::{find_queue_families, graphics_capable, has_graphics_family, QueueFamily};

verus! {

/// The kind of accelerator a device reports itself as.
#[derive(Clone, Copy, Debug, PartialEq, Eq, Structural)]
pub enum DeviceType {
    Other,
    IntegratedGpu,
    DiscreteGpu,
    VirtualGpu,
    Cpu,
}

/// What the bootstrap reads of one physical device: its queue families, the
/// device extensions it offers, and the kind of accelerator it is. The
/// driver handle itself stays with the caller; candidates are transient and
/// identified by their position in the enumeration.
pub struct PhysicalDeviceInfo {
    pub queue_families: Vec<QueueFamily>,
    pub available_extensions: Vec<Vec<u8>>,
    pub device_type: DeviceType,
}

/// A device is suitable when some queue family can serve graphics work and
/// every requested device extension is among its available extensions.
pub open spec fn device_suitable(d: PhysicalDeviceInfo, requested: Seq<Seq<u8>>) -> bool {
    has_graphics_family(d.queue_families@) && all_present_in(
        d.available_extensions.deep_view(),
        requested,
    )
}

/// Two-tier ranking: unsuitable devices score the sentinel -1, discrete
/// accelerators 1000, every other suitable device 0.
pub open spec fn device_score(d: PhysicalDeviceInfo, requested: Seq<Seq<u8>>) -> int {
    if !device_suitable(d, requested) {
        -1
    } else if d.device_type is DiscreteGpu {
        1000
    } else {
        0
    }
}

/// The scores of a device list, in enumeration order.
pub open spec fn scores_of(devices: Seq<PhysicalDeviceInfo>, requested: Seq<Seq<u8>>) -> Seq<
    int,
> {
    devices.map_values(|d: PhysicalDeviceInfo| device_score(d, requested))
}

/// Decides suitability: complete queue families and all desired extensions
/// present.
pub fn is_physical_device_suitable(
    device: &PhysicalDeviceInfo,
    desired_extensions: &Vec<Vec<u8>>,
) -> (r: bool)
    requires
        device.queue_families@.len() <= u32::MAX,
    ensures
        r == device_suitable(*device, desired_extensions.deep_view()),
{
    let ids = find_queue_families(&device.queue_families);
    let supports_extensions = all_present(&device.available_extensions, desired_extensions);
    let complete = ids.is_complete();
    proof {
        if ids.graphics_family is Some {
            let i = ids.graphics_family->0 as int;
            assert(graphics_capable(device.queue_families@[i]));
        }
    }
    complete && supports_extensions
}

/// Scores one device for selection.
pub fn score_device(device: &PhysicalDeviceInfo, desired_extensions: &Vec<Vec<u8>>) -> (s: i32)
    requires
        device.queue_families@.len() <= u32::MAX,
    ensures
        s as int == device_score(*device, desired_extensions.deep_view()),
{
    if !is_physical_device_suitable(device, desired_extensions) {
        return -1;
    }
    match device.device_type {
        DeviceType::DiscreteGpu => 1000,
        _ => 0,
    }
}

/// `i` is the first index achieving the maximum of `scores`.
pub open spec fn is_first_max(scores: Seq<int>, i: int) -> bool {
    &&& 0 <= i < scores.len()
    &&& forall|j: int| 0 <= j < scores.len() ==> scores[j] <= scores[i]
    &&& forall|j: int| 0 <= j < i ==> scores[j] < scores[i]
}

/// Running-best scan over an ordered score list: the running pair is
/// replaced only on a strictly greater score, so the first index achieving
/// the maximum wins every tie. None only for an empty list.
pub fn select_best(scores: &Vec<i32>) -> (r: Option<usize>)
    ensures
        match r {
            Some(i) => is_first_max(scores@.map_values(|s: i32| s as int), i as int),
            None => scores@.len() == 0,
        },
{
    let ghost m = scores@.map_values(|s: i32| s as int);
    let mut best: Option<(usize, i32)> = None;
    let mut k: usize = 0;
    while k < scores.len()
        invariant
            0 <= k <= scores@.len(),
            m == scores@.map_values(|s: i32| s as int),
            match best {
                Some(p) => {
                    &&& (p.0 as int) < k as int
                    &&& scores@[p.0 as int] == p.1
                    &&& forall|j: int| 0 <= j < k ==> m[j] <= p.1 as int
                    &&& forall|j: int| 0 <= j < p.0 as int ==> m[j] < p.1 as int
                },
                None => k == 0,
            },
        decreases scores@.len() - k,
    {
        let s = scores[k];
        match best {
            None => {
                best = Some((k, s));
            },
            Some(p) => {
                if s > p.1 {
                    best = Some((k, s));
                }
            },
        }
        k = k + 1;
    }
    match best {
        None => None,
        Some(p) => Some(p.0),
    }
}

/// Scores every enumerated device in order and returns the index of the
/// first device achieving the highest score, provided that device
/// qualifies. Fails with NoSuitableDevice exactly when the list is empty or
/// every device is disqualified; selection never returns a placeholder.
pub fn pick_physical_device(
    devices: &Vec<PhysicalDeviceInfo>,
    desired_extensions: &Vec<Vec<u8>>,
) -> (r: Result<usize, BootstrapError>)
    requires
        forall|i: int| 0 <= i < devices@.len() ==> devices@[i].queue_families@.len() <= u32::MAX,
    ensures
        match r {
            Ok(i) => {
                &&& (i as int) < devices@.len()
                &&& device_score(devices@[i as int], desired_extensions.deep_view()) >= 0
                &&& is_first_max(scores_of(devices@, desired_extensions.deep_view()), i as int)
            },
            Err(e) => {
                &&& e == BootstrapError::NoSuitableDevice
                &&& forall|j: int|
                    0 <= j < devices@.len() ==> device_score(
                        devices@[j],
                        desired_extensions.deep_view(),
                    ) < 0
            },
        },
{
    let ghost req = desired_extensions.deep_view();
    let mut scores: Vec<i32> = Vec::new();
    let mut k: usize = 0;
    while k < devices.len()
        invariant
            0 <= k <= devices@.len(),
            scores@.len() == k as int,
            req == desired_extensions.deep_view(),
            forall|i: int|
                0 <= i < devices@.len() ==> devices@[i].queue_families@.len() <= u32::MAX,
            forall|j: int| 0 <= j < k ==> scores@[j] as int == device_score(devices@[j], req),
        decreases devices@.len() - k,
    {
        let s = score_device(&devices[k], desired_extensions);
        scores.push(s);
        k = k + 1;
    }
    assert(scores@.map_values(|s: i32| s as int) =~= scores_of(devices@, req));
    match select_best(&scores) {
        None => Err(BootstrapError::NoSuitableDevice),
        Some(i) => {
            if scores[i] < 0 {
                proof {
                    let ss = scores_of(devices@, req);
                    assert forall|j: int|
                        0 <= j < devices@.len() implies device_score(devices@[j], req) < 0 by {
                        assert(ss[j] == device_score(devices@[j], req));
                        assert(ss[j] <= ss[i as int]);
                        assert(ss[i as int] == scores@[i as int] as int);
                    }
                }
                Err(BootstrapError::NoSuitableDevice)
            } else {
                Ok(i)
            }
        },
    }
}

/// Scoring is monotonic: a device disqualified by incomplete queue families
/// or missing required extensions always scores the sentinel -1, strictly
/// below the score of any qualifying device, which is 0 or 1000.
pub proof fn lemma_score_monotonic(
    disqualified: PhysicalDeviceInfo,
    qualifying: PhysicalDeviceInfo,
    requested: Seq<Seq<u8>>,
)
    requires
        !device_suitable(disqualified, requested),
        device_suitable(qualifying, requested),
    ensures
        device_score(disqualified, requested) == -1,
        device_score(qualifying, requested) == 0 || device_score(qualifying, requested) == 1000,
        device_score(disqualified, requested) < device_score(qualifying, requested),
{
}

/// Selection is deterministic: a fixed ordered score list has at most one
/// first index achieving the maximum.
pub proof fn lemma_first_max_unique(scores: Seq<int>, i1: int, i2: int)
    requires
        is_first_max(scores, i1),
        is_first_max(scores, i2),
    ensures
        i1 == i2,
{
    if i1 < i2 {
        assert(scores[i1] < scores[i2]);
        assert(scores[i2] <= scores[i1]);
    }
    if i2 < i1 {
        assert(scores[i2] < scores[i1]);
        assert(scores[i1] <= scores[i2]);
    }
}

/// Selection on an empty score list can pick nothing: no index is a first
/// maximum of an empty list.
pub proof fn lemma_empty_selection(scores: Seq<int>)
    requires
        scores.len() == 0,
    ensures
        forall|i: int| !is_first_max(scores, i),
{
}

/// Where exactly one device qualifies, the selected index is that device,
/// whatever its type and score.
pub proof fn lemma_single_qualifier(scores: Seq<int>, q: int)
    requires
        0 <= q < scores.len(),
        scores[q] >= 0,
        forall|j: int| 0 <= j < scores.len() && j != q ==> scores[j] < 0,
    ensures
        is_first_max(scores, q),
        forall|i: int| is_first_max(scores, i) ==> i == q,
{
    assert forall|i: int| is_first_max(scores, i) implies i == q by {
        if i != q {
            assert(scores[q] <= scores[i]);
            assert(scores[i] < 0);
        }
    }
}

} // verus!
