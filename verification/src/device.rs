//! Device and queue-family selection.
//!
//! The driver enumerates physical devices and, per device, the capability
//! flags of its queue families; this module makes the selection decision
//! from those plain values. The first enumerated device exposing a
//! compute-capable queue family wins, deterministically, with no fallback
//! substitution; graphics capability counts as a superset of compute.

use vstd::prelude::*;

use crate::errors::PipelineError;

verus! {

/// Capability flags of one queue family, as the driver reports them.
#[derive(Clone, Copy, Debug, PartialEq, Eq, Structural)]
pub struct QueueFamilyCaps {
    /// The family accepts compute work.
    pub compute: bool,
    /// The family accepts graphics work (which subsumes compute).
    pub graphics: bool,
}

/// One enumerated physical device: the capabilities of its queue
/// families, in the driver's order.
#[derive(Debug)]
pub struct DeviceDescriptor {
    /// Queue families of the device, in enumeration order.
    pub queue_families: Vec<QueueFamilyCaps>,
}

/// The outcome of device selection: which enumerated device to open and
/// which of its queue families to take the queue from.
#[derive(Clone, Copy, Debug, PartialEq, Eq, Structural)]
pub struct DeviceSelection {
    /// Index into the enumeration order of the chosen device.
    pub device_index: usize,
    /// Index of the chosen queue family within that device.
    pub queue_family_index: usize,
}

/// A queue family able to run compute kernels, directly or through the
/// graphics superset.
pub open spec fn family_eligible(caps: QueueFamilyCaps) -> bool {
    caps.compute || caps.graphics
}

/// A device is usable when any of its queue families is eligible.
pub open spec fn device_eligible(d: DeviceDescriptor) -> bool {
    exists|i: int| 0 <= i < d.queue_families@.len() && family_eligible(#[trigger] d.queue_families@[i])
}

/// Some enumerated device is usable.
pub open spec fn any_device_eligible(devs: Seq<DeviceDescriptor>) -> bool {
    exists|d: int| 0 <= d < devs.len() && device_eligible(#[trigger] devs[d])
}

/// Picks the first compute-capable queue family of one device.
pub fn select_queue_family(families: &Vec<QueueFamilyCaps>) -> (r: Option<usize>)
    ensures
        r is Some <==> exists|i: int|
            0 <= i < families@.len() && family_eligible(#[trigger] families@[i]),
        r matches Some(i) ==> i < families@.len() && family_eligible(families@[i as int]) && forall|
            j: int,
        | 0 <= j < i ==> !family_eligible(#[trigger] families@[j]),
{
    let mut k: usize = 0;
    while k < families.len()
        invariant
            k <= families@.len(),
            forall|j: int| 0 <= j < k ==> !family_eligible(#[trigger] families@[j]),
        decreases families@.len() - k,
    {
        let caps = families[k];
        if caps.compute || caps.graphics {
            return Some(k);
        }
        k = k + 1;
    }
    None
}

/// Turns a driver enumeration into the device decision.
///
/// `None` stands for a driver that could not be loaded at all and yields
/// `NoDriver`; an enumeration without any compute-capable device yields
/// `NoComputeCapableDevice`; otherwise the first eligible device and its
/// first eligible queue family are chosen.
pub fn plan_open(enumeration: Option<&Vec<DeviceDescriptor>>) -> (r: Result<
    DeviceSelection,
    PipelineError,
>)
    ensures
        enumeration is None ==> r == Err::<DeviceSelection, PipelineError>(
            PipelineError::NoDriver,
        ),
        enumeration matches Some(devs) ==> (r is Ok <==> any_device_eligible(devs@)),
        enumeration matches Some(devs) ==> (r is Err ==> r == Err::<DeviceSelection, PipelineError>(
            PipelineError::NoComputeCapableDevice,
        )),
        enumeration matches Some(devs) ==> r matches Ok(sel) ==> {
            &&& sel.device_index < devs@.len()
            &&& device_eligible(devs@[sel.device_index as int])
            &&& forall|d: int| 0 <= d < sel.device_index ==> !device_eligible(#[trigger] devs@[d])
            &&& sel.queue_family_index < devs@[sel.device_index as int].queue_families@.len()
            &&& family_eligible(
                devs@[sel.device_index as int].queue_families@[sel.queue_family_index as int],
            )
            &&& forall|j: int|
                0 <= j < sel.queue_family_index ==> !family_eligible(
                    #[trigger] devs@[sel.device_index as int].queue_families@[j],
                )
        },
{
    let devs = match enumeration {
        None => {
            return Err(PipelineError::NoDriver);
        },
        Some(devs) => devs,
    };
    let mut d: usize = 0;
    while d < devs.len()
        invariant
            enumeration == Some(devs),
            d <= devs@.len(),
            forall|k: int| 0 <= k < d ==> !device_eligible(#[trigger] devs@[k]),
        decreases devs@.len() - d,
    {
        match select_queue_family(&devs[d].queue_families) {
            Some(q) => {
                proof {
                    assert(device_eligible(devs@[d as int]));
                    assert(any_device_eligible(devs@));
                }
                return Ok(DeviceSelection { device_index: d, queue_family_index: q });
            },
            None => {},
        }
        d = d + 1;
    }
    Err(PipelineError::NoComputeCapableDevice)
}

} // verus!
