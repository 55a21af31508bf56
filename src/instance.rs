//! The process-wide entry point: adapters and surfaces.
use vstd::prelude::*;

use crate::adapter::PhysicalDevice;
use crate::queue::QueueFamily;
use crate::window::Surface;

verus! {

/// How a physical device is classified.
#[derive(Clone, Copy, Debug, PartialEq, Eq, Structural)]
pub enum DeviceType {
    Other,
    IntegratedGpu,
    DiscreteGpu,
    VirtualGpu,
    Cpu,
}

/// What a caller can learn of an adapter before opening it.
#[derive(Debug)]
pub struct AdapterInfo {
    pub name: String,
    pub vendor: usize,
    pub device: usize,
    pub device_type: DeviceType,
}

/// The vendor id of the synthetic adapter.
pub const MOCK_VENDOR: usize = 0;
/// The device id of the synthetic adapter.
pub const MOCK_DEVICE: usize = 1234;

/// A physical device together with its description and queue families.
pub struct Adapter {
    pub info: AdapterInfo,
    pub physical_device: PhysicalDevice,
    pub queue_families: Vec<QueueFamily>,
}

/// The plain content of an adapter: name, vendor id, device id, device type
/// and queue families.
pub struct AdapterModel {
    pub name: Seq<char>,
    pub vendor: usize,
    pub device: usize,
    pub device_type: DeviceType,
    pub queue_families: Seq<QueueFamily>,
}

impl View for Adapter {
    type V = AdapterModel;

    open spec fn view(&self) -> AdapterModel {
        AdapterModel {
            name: self.info.name@,
            vendor: self.info.vendor,
            device: self.info.device,
            device_type: self.info.device_type,
            queue_families: self.queue_families@,
        }
    }
}

/// The one synthetic adapter: "Mock Device", vendor 0, device 1234, of type
/// other, with the one queue family.
pub open spec fn mock_adapter() -> AdapterModel {
    AdapterModel {
        name: "Mock Device"@,
        vendor: MOCK_VENDOR,
        device: MOCK_DEVICE,
        device_type: DeviceType::Other,
        queue_families: seq![QueueFamily],
    }
}

/// What enumeration returns: exactly the synthetic adapter.
pub open spec fn is_mock_enumeration(adapters: Seq<Adapter>) -> bool {
    adapters.len() == 1 && adapters[0]@ == mock_adapter()
}

/// Enumeration is deterministic: any two lists of adapters that enumeration
/// can return hold the same single adapter.
pub proof fn lemma_enumeration_deterministic(first: Seq<Adapter>, second: Seq<Adapter>)
    requires
        is_mock_enumeration(first),
        is_mock_enumeration(second),
    ensures
        first.len() == second.len(),
        forall|i: int| 0 <= i < first.len() ==> #[trigger] first[i]@ == second[i]@,
{
}

/// Failure to create an instance; this backend produces none.
#[derive(Clone, Copy, Debug, PartialEq, Eq, Structural)]
pub struct UnsupportedBackend;

/// Failure to create a surface; this backend produces none.
#[derive(Clone, Copy, Debug, PartialEq, Eq, Structural)]
pub enum InitError {
    UnsupportedWindowHandle,
}

/// The instance of the backend.
#[derive(Clone, Copy, Debug, PartialEq, Eq, Structural)]
pub struct Instance;

impl Instance {
    /// Creates the instance; any name and version will do.
    pub fn create(name: &str, version: u32) -> (r: Result<Instance, UnsupportedBackend>)
        ensures
            r == Ok::<Instance, UnsupportedBackend>(Instance),
    {
        Ok(Instance)
    }

    /// The one synthetic adapter, the same on every call.
    pub fn enumerate_adapters(&self) -> (r: Vec<Adapter>)
        ensures
            is_mock_enumeration(r@),
    {
        let info = AdapterInfo {
            name: String::from_str("Mock Device"),
            vendor: MOCK_VENDOR,
            device: MOCK_DEVICE,
            device_type: DeviceType::Other,
        };
        let mut queue_families: Vec<QueueFamily> = Vec::new();
        queue_families.push(QueueFamily);
        let adapter = Adapter { info, physical_device: PhysicalDevice, queue_families };
        let mut adapters: Vec<Adapter> = Vec::new();
        adapters.push(adapter);
        proof {
            reveal_strlit("Mock Device");
        }
        adapters
    }

    /// A new surface for a window whose handle the caller has read.
    pub fn create_surface(&self) -> (r: Result<Surface, InitError>)
        ensures
            r == Ok::<Surface, InitError>(Surface),
    {
        Ok(Surface)
    }

    /// A surface owns nothing, so there is nothing to release.
    pub fn destroy_surface(&self, surface: Surface) {
    }
}

} // verus!
