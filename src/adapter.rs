//! The one physical device, its memory and limits, and how a device is opened.
use vstd::prelude::*;

use crate::device::Device;
use crate::queue::{CommandQueue, QueueFamily, QueueFamilyId, QueueGroup, QUEUE_FAMILY_ID};
use crate::support::Unsupported;

verus! {

/// Memory property bit: local to the device.
pub const DEVICE_LOCAL: u16 = 0x1;
/// Memory property bit: the host can map it.
pub const CPU_VISIBLE: u16 = 0x2;
/// Memory property bit: host and device see writes without explicit flushes.
pub const COHERENT: u16 = 0x4;
/// Memory property bit: cached on the host.
pub const CPU_CACHED: u16 = 0x8;

/// Capacity of the one memory heap, in bytes.
pub const HEAP_SIZE: u64 = 65536;

/// One kind of memory: its property bits and the heap it is drawn from.
#[derive(Clone, Copy, Debug, PartialEq, Eq, Structural)]
pub struct MemoryType {
    pub properties: u16,
    pub heap_index: usize,
}

/// The memory types of a physical device and the sizes of its heaps.
pub struct MemoryProperties {
    pub memory_types: Vec<MemoryType>,
    pub memory_heaps: Vec<u64>,
}

/// The one memory type this backend reports: it has every property.
pub open spec fn all_purpose_memory_type() -> MemoryType {
    MemoryType { properties: 0xF, heap_index: 0 }
}

/// The capability limits this backend can honour; every other limit of the
/// abstraction layer keeps its default.
#[derive(Clone, Copy, Debug, PartialEq, Eq, Structural)]
pub struct Limits {
    pub non_coherent_atom_size: u64,
    pub optimal_buffer_copy_pitch_alignment: u64,
}

/// Feature bits a caller asks for when it opens a device.
#[derive(Clone, Copy, Debug, PartialEq, Eq, Structural)]
pub struct Features {
    pub bits: u128,
}

/// A queue priority, held as the bit pattern of its IEEE-754 single-precision
/// value.
#[derive(Clone, Copy, Debug, PartialEq, Eq, Structural)]
pub struct QueuePriority {
    pub bits: u32,
}

/// Whether the single-precision value with bit pattern `bits` lies in
/// `[0.0, 1.0]`: a non-negative value orders like its bit pattern, `1.0` is
/// `0x3F80_0000`, and `-0.0` (`0x8000_0000`) equals `0.0`. No NaN is in range.
pub open spec fn priority_in_range(bits: u32) -> bool {
    bits <= 0x3F80_0000 || bits == 0x8000_0000
}

/// Why a request to open a device cannot be served.
#[derive(Clone, Copy, Debug, PartialEq, Eq, Structural)]
pub enum OpenRequestError {
    /// Not exactly one queue family was requested.
    FamilyCount,
    /// Not exactly one queue was requested from the family.
    QueueCount,
    /// The queue priority is not in `[0.0, 1.0]`.
    PriorityOutOfRange,
}

/// Diagnostic for a request that does not name exactly one queue family.
pub const FAMILY_COUNT_MESSAGE: &'static str = "Empty backend doesn't have multiple queue families";
/// Diagnostic for a request that does not ask exactly one queue.
pub const QUEUE_COUNT_MESSAGE: &'static str = "Empty backend doesn't support multiple queues";
/// Diagnostic for a queue priority outside `[0.0, 1.0]`.
pub const PRIORITY_RANGE_MESSAGE: &'static str = "Queue priority is out of range";

impl OpenRequestError {
    /// The diagnostic that goes with the error.
    pub fn message(&self) -> (r: &'static str)
        ensures
            *self == OpenRequestError::FamilyCount ==> r == FAMILY_COUNT_MESSAGE,
            *self == OpenRequestError::QueueCount ==> r == QUEUE_COUNT_MESSAGE,
            *self == OpenRequestError::PriorityOutOfRange ==> r == PRIORITY_RANGE_MESSAGE,
    {
        match self {
            OpenRequestError::FamilyCount => FAMILY_COUNT_MESSAGE,
            OpenRequestError::QueueCount => QUEUE_COUNT_MESSAGE,
            OpenRequestError::PriorityOutOfRange => PRIORITY_RANGE_MESSAGE,
        }
    }
}

/// A queue family and the priorities of the queues asked of it.
pub type FamilyRequest = (QueueFamily, Vec<QueuePriority>);

/// The outcome of checking an open request, in the order the checks are made.
pub open spec fn open_request_outcome(families: Seq<FamilyRequest>) -> Result<(), OpenRequestError> {
    if families.len() != 1 {
        Err(OpenRequestError::FamilyCount)
    } else if families[0].1@.len() != 1 {
        Err(OpenRequestError::QueueCount)
    } else if !priority_in_range(families[0].1@[0].bits) {
        Err(OpenRequestError::PriorityOutOfRange)
    } else {
        Ok(())
    }
}

/// The requests a device can be opened with: one family, one queue, a
/// priority in range.
pub open spec fn open_request_valid(families: Seq<FamilyRequest>) -> bool {
    open_request_outcome(families) is Ok
}

/// A request is accepted exactly when it names one family, asks one queue of
/// it, and gives that queue a priority in `[0.0, 1.0]`; every other request is
/// refused with the first check it fails.
pub proof fn lemma_open_request_accepted(families: Seq<FamilyRequest>)
    ensures
        open_request_valid(families) <==> (families.len() == 1 && families[0].1@.len() == 1
            && priority_in_range(families[0].1@[0].bits)),
        !open_request_valid(families) ==> open_request_outcome(families) is Err,
{
}

/// Failures of device creation; this backend produces none.
#[derive(Clone, Copy, Debug, PartialEq, Eq, Structural)]
pub enum CreationError {
    OutOfHostMemory,
    OutOfDeviceMemory,
    InitializationFailed,
    MissingExtension,
    MissingFeature,
    TooManyObjects,
    DeviceLost,
}

/// An opened logical device and the queues that came with it.
pub struct Gpu {
    pub device: Device,
    pub queue_groups: Vec<QueueGroup>,
}

/// The shape of what opening a device yields: one group, of the one family,
/// holding one queue.
pub open spec fn single_queue_gpu(gpu: Gpu) -> bool {
    &&& gpu.queue_groups@.len() == 1
    &&& gpu.queue_groups@[0].family == QueueFamilyId(QUEUE_FAMILY_ID)
    &&& gpu.queue_groups@[0].queues@.len() == 1
}

/// The one abstract GPU of this backend.
#[derive(Clone, Copy, Debug, PartialEq, Eq, Structural)]
pub struct PhysicalDevice;

/// Checks a request to open a device, in the order of [`open_request_outcome`].
pub fn check_open_request(families: &[FamilyRequest]) -> (r: Result<(), OpenRequestError>)
    ensures
        r == open_request_outcome(families@),
{
    if families.len() != 1 {
        return Err(OpenRequestError::FamilyCount);
    }
    let priorities = &families[0].1;
    if priorities.len() != 1 {
        return Err(OpenRequestError::QueueCount);
    }
    let bits = priorities[0].bits;
    if !(bits <= 0x3F80_0000 || bits == 0x8000_0000) {
        return Err(OpenRequestError::PriorityOutOfRange);
    }
    Ok(())
}

impl PhysicalDevice {
    /// Opens the logical device with its one queue group of one queue.
    pub fn open(&self, families: &[FamilyRequest], requested_features: Features) -> (r: Result<
        Gpu,
        CreationError,
    >)
        requires
            open_request_valid(families@),
        ensures
            r matches Ok(gpu) && single_queue_gpu(gpu),
    {
        let mut queue_group = QueueGroup::new(QueueFamilyId(QUEUE_FAMILY_ID));
        queue_group.add_queue(CommandQueue);
        let mut queue_groups: Vec<QueueGroup> = Vec::new();
        queue_groups.push(queue_group);
        let gpu = Gpu { device: Device, queue_groups };
        Ok(gpu)
    }

    /// One memory type with every property, drawn from one 64 KiB heap.
    pub fn memory_properties(&self) -> (r: MemoryProperties)
        ensures
            r.memory_types@.len() == 1,
            r.memory_heaps@.len() == 1,
            r.memory_types@ == seq![all_purpose_memory_type()],
            r.memory_heaps@ == seq![HEAP_SIZE],
    {
        let properties = DEVICE_LOCAL | CPU_VISIBLE | COHERENT | CPU_CACHED;
        assert(0x1u16 | 0x2u16 | 0x4u16 | 0x8u16 == 0xFu16) by (bit_vector);
        let memory_type = MemoryType { properties, heap_index: 0 };
        let mut memory_types: Vec<MemoryType> = Vec::new();
        memory_types.push(memory_type);
        let mut memory_heaps: Vec<u64> = Vec::new();
        memory_heaps.push(HEAP_SIZE);
        MemoryProperties { memory_types, memory_heaps }
    }

    /// The two limits this backend honours, both 1.
    pub fn limits(&self) -> (r: Limits)
        ensures
            r.non_coherent_atom_size == 1,
            r.optimal_buffer_copy_pitch_alignment == 1,
    {
        Limits { non_coherent_atom_size: 1, optimal_buffer_copy_pitch_alignment: 1 }
    }

    /// Format properties describe real hardware: a native backend is needed.
    pub fn format_properties(&self, format: Option<u32>) -> (r: Result<(), Unsupported>)
        ensures
            r == Err::<(), Unsupported>(Unsupported),
    {
        Err(Unsupported)
    }

    /// Image format properties describe real hardware: a native backend is
    /// needed.
    pub fn image_format_properties(&self, format: u32, dimensions: u8) -> (r: Result<
        (),
        Unsupported,
    >)
        ensures
            r == Err::<(), Unsupported>(Unsupported),
    {
        Err(Unsupported)
    }

    /// Features describe real hardware: a native backend is needed.
    pub fn features(&self) -> (r: Result<Features, Unsupported>)
        ensures
            r == Err::<Features, Unsupported>(Unsupported),
    {
        Err(Unsupported)
    }

    /// Hints describe real hardware: a native backend is needed.
    pub fn hints(&self) -> (r: Result<u32, Unsupported>)
        ensures
            r == Err::<u32, Unsupported>(Unsupported),
    {
        Err(Unsupported)
    }
}

} // verus!
