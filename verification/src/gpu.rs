//! Choosing the graphics device: discrete GPUs first, then integrated and
//! virtual ones, CPUs and other devices last.

use vstd::prelude::*;

verus! {

/// The kinds of physical device.
#[derive(Debug, Clone, Copy, PartialEq, Eq, Structural)]
pub enum DeviceKind {
    IntegratedGpu,
    DiscreteGpu,
    VirtualGpu,
    Cpu,
    Other,
}

/// How much a device kind is preferred.
pub open spec fn power_of(kind: DeviceKind) -> int {
    match kind {
        DeviceKind::IntegratedGpu => 1,
        DeviceKind::DiscreteGpu => 2,
        DeviceKind::VirtualGpu => 1,
        DeviceKind::Cpu => -1,
        DeviceKind::Other => -1,
    }
}

/// How much a device kind is preferred.
pub fn device_power(kind: DeviceKind) -> (power: i32)
    ensures
        power == power_of(kind),
{
    match kind {
        DeviceKind::IntegratedGpu => 1,
        DeviceKind::DiscreteGpu => 2,
        DeviceKind::VirtualGpu => 1,
        DeviceKind::Cpu => -1,
        DeviceKind::Other => -1,
    }
}

/// The device to use, by the powers of the devices in the order they are
/// listed: the last of those with the greatest power; `None` where there is
/// no device.
pub fn choose_device(powers: &[i32]) -> (res: Option<usize>)
    ensures
        res is None <==> powers@.len() == 0,
        res matches Some(i) ==> {
            &&& i < powers@.len()
            &&& forall|j: int| 0 <= j < powers@.len() ==> powers@[j] <= powers@[i as int]
            &&& forall|j: int| i < j < powers@.len() ==> powers@[j] < powers@[i as int]
        },
{
    let n = powers.len();
    if n == 0 {
        return None;
    }
    let mut best: usize = 0;
    let mut j: usize = 1;
    while j < n
        invariant
            n == powers@.len(),
            best < j <= n,
            forall|k: int| 0 <= k < j ==> powers@[k] <= powers@[best as int],
            forall|k: int| best < k < j ==> powers@[k] < powers@[best as int],
        decreases n - j,
    {
        if powers[j] >= powers[best] {
            best = j;
        }
        j = j + 1;
    }
    Some(best)
}

} // verus!
