use vstd::prelude::*;

use crate::queue::{QueueFamilyCaps, QueueFamilyIndices, chosen_families, find_queue_families};
use crate::swapchain::PresentModes;

verus! {

/// What the renderer learns of one physical device before choosing it.
#[derive(Clone, Debug)]
pub struct DeviceProfile {
    /// The device's queue families, in the device's order.
    pub queue_families: Vec<QueueFamilyCaps>,
    /// The device offers the swapchain extension.
    pub supports_swapchain: bool,
    /// How many format pairs the surface offers on this device (queried only where the
    /// swapchain extension is there; zero otherwise).
    pub format_count: usize,
    /// The present modes the surface offers on this device.
    pub present_modes: PresentModes,
}

/// Why the renderer could not start.
#[derive(Clone, Copy, Debug, PartialEq, Eq, Structural)]
pub enum SetupError {
    /// No physical device can both draw and present to the surface.
    NoSuitableDevice,
}

pub open spec fn has_present_mode(m: PresentModes) -> bool {
    m.immediate || m.mailbox || m.fifo || m.relaxed
}

/// A device is suitable when it has a queue family for drawing and one for presenting, offers
/// the swapchain extension, and its surface offers at least one format and one present mode.
pub open spec fn suitable(p: DeviceProfile) -> bool {
    &&& chosen_families(p.queue_families@).complete()
    &&& p.supports_swapchain
    &&& p.format_count > 0
    &&& has_present_mode(p.present_modes)
}

/// The same test read on the queue families themselves.
pub open spec fn suitable_by_roles(p: DeviceProfile) -> bool {
    &&& exists|i: int| 0 <= i < p.queue_families.len() && #[trigger] p.queue_families@[i].graphics
    &&& exists|i: int| 0 <= i < p.queue_families.len() && #[trigger] p.queue_families@[i].present
    &&& p.supports_swapchain
    &&& p.format_count > 0
    &&& has_present_mode(p.present_modes)
}

/// Whether the renderer can use this device.
pub fn is_device_suitable(device: &DeviceProfile) -> (r: bool)
    requires
        device.queue_families.len() <= i32::MAX,
    ensures
        r == suitable(*device),
        r == suitable_by_roles(*device),
{
    let indices: QueueFamilyIndices = find_queue_families(&device.queue_families);
    let modes = device.present_modes;
    let swap_chain_adequate = device.supports_swapchain && device.format_count > 0 && (
    modes.immediate || modes.mailbox || modes.fifo || modes.relaxed);
    indices.is_complete() && device.supports_swapchain && swap_chain_adequate
}

/// The position of the first suitable device.
pub fn pick_physical_device(devices: &Vec<DeviceProfile>) -> (r: Result<usize, SetupError>)
    requires
        forall|i: int| 0 <= i < devices.len() ==> #[trigger] devices@[i].queue_families.len() <= i32::MAX,
    ensures
        match r {
            Ok(i) => i < devices.len() && suitable(devices@[i as int]) && forall|j: int|
                0 <= j < i ==> !suitable(#[trigger] devices@[j]),
            Err(e) => e == SetupError::NoSuitableDevice && forall|j: int|
                0 <= j < devices.len() ==> !suitable(#[trigger] devices@[j]),
        },
{
    let mut i: usize = 0;
    while i < devices.len()
        invariant
            i <= devices.len(),
            forall|j: int| 0 <= j < devices.len() ==> #[trigger] devices@[j].queue_families.len() <= i32::MAX,
            forall|j: int| 0 <= j < i ==> !suitable(#[trigger] devices@[j]),
        decreases devices.len() - i,
    {
        if is_device_suitable(&devices[i]) {
            return Ok(i);
        }
        i = i + 1;
    }
    Err(SetupError::NoSuitableDevice)
}

} // verus!
