use gfx_backend_empty::adapter::{
    check_open_request, Features, OpenRequestError, QueuePriority, CPU_CACHED, CPU_VISIBLE,
    COHERENT, DEVICE_LOCAL, HEAP_SIZE,
};
use gfx_backend_empty::command::{check_level, CommandBuffer, Level, SecondaryLevel};
use gfx_backend_empty::device::{Segment, SCRATCH_SIZE};
use gfx_backend_empty::instance::{DeviceType, Instance};
use gfx_backend_empty::queue::{CommandQueue, QueueFamilyId, QueueType};
use gfx_backend_empty::window::{Extent2D, SwapchainConfig};
use gfx_backend_empty::{Device, Handle, PhysicalDevice, QueueFamily, Surface, Unsupported, UNSUPPORTED_MESSAGE};

fn priority(p: f32) -> QueuePriority {
    QueuePriority { bits: p.to_bits() }
}

#[test]
fn instance_creation_succeeds() {
    assert!(Instance::create("app", 1).is_ok());
    assert!(Instance::create("", 0).is_ok());
}

#[test]
fn enumeration_gives_one_mock_adapter() {
    let adapters = Instance.enumerate_adapters();
    assert_eq!(adapters.len(), 1);
    let info = &adapters[0].info;
    assert_eq!(info.name, "Mock Device");
    assert_eq!(info.vendor, 0);
    assert_eq!(info.device, 1234);
    assert_eq!(info.device_type, DeviceType::Other);
    assert_eq!(adapters[0].queue_families.len(), 1);
}

#[test]
fn enumeration_is_deterministic() {
    let first = Instance.enumerate_adapters();
    let second = Instance.enumerate_adapters();
    assert_eq!(first.len(), second.len());
    for (a, b) in first.iter().zip(second.iter()) {
        assert_eq!(a.info.name, b.info.name);
        assert_eq!(a.info.vendor, b.info.vendor);
        assert_eq!(a.info.device, b.info.device);
        assert_eq!(a.info.device_type, b.info.device_type);
        assert_eq!(a.queue_families, b.queue_families);
    }
}

#[test]
fn open_with_one_queue_succeeds() {
    for p in [0.0f32, -0.0, 0.5, 1.0] {
        let request = vec![(QueueFamily, vec![priority(p)])];
        assert_eq!(check_open_request(&request), Ok(()));
        let gpu = PhysicalDevice.open(&request, Features { bits: 0 }).ok().unwrap();
        assert_eq!(gpu.queue_groups.len(), 1);
        assert_eq!(gpu.queue_groups[0].family, QueueFamilyId(0));
        assert_eq!(gpu.queue_groups[0].queues.len(), 1);
    }
}

#[test]
fn open_request_errors() {
    let none: Vec<(QueueFamily, Vec<QueuePriority>)> = vec![];
    assert_eq!(check_open_request(&none), Err(OpenRequestError::FamilyCount));
    let two = vec![(QueueFamily, vec![priority(1.0)]), (QueueFamily, vec![priority(1.0)])];
    assert_eq!(check_open_request(&two), Err(OpenRequestError::FamilyCount));
    let no_queue = vec![(QueueFamily, vec![])];
    assert_eq!(check_open_request(&no_queue), Err(OpenRequestError::QueueCount));
    let two_queues = vec![(QueueFamily, vec![priority(0.5), priority(0.5)])];
    assert_eq!(check_open_request(&two_queues), Err(OpenRequestError::QueueCount));
    for p in [-0.25f32, 1.0001, 2.0, f32::NAN, f32::INFINITY, f32::NEG_INFINITY] {
        let request = vec![(QueueFamily, vec![priority(p)])];
        assert_eq!(check_open_request(&request), Err(OpenRequestError::PriorityOutOfRange));
    }
    assert_eq!(
        OpenRequestError::FamilyCount.message(),
        "Empty backend doesn't have multiple queue families"
    );
    assert_eq!(OpenRequestError::QueueCount.message(), "Empty backend doesn't support multiple queues");
    assert_eq!(OpenRequestError::PriorityOutOfRange.message(), "Queue priority is out of range");
}

#[test]
fn memory_properties_one_type_one_heap() {
    let props = PhysicalDevice.memory_properties();
    assert_eq!(props.memory_types.len(), 1);
    assert_eq!(props.memory_types[0].properties, DEVICE_LOCAL | CPU_VISIBLE | COHERENT | CPU_CACHED);
    assert_eq!(props.memory_types[0].properties, 0xF);
    assert_eq!(props.memory_types[0].heap_index, 0);
    assert_eq!(props.memory_heaps, vec![64 * 1024]);
    assert_eq!(HEAP_SIZE, 65536);
}

#[test]
fn limits_are_one() {
    let limits = PhysicalDevice.limits();
    assert_eq!(limits.non_coherent_atom_size, 1);
    assert_eq!(limits.optimal_buffer_copy_pitch_alignment, 1);
}

#[test]
fn queue_family_is_general_with_one_queue() {
    assert_eq!(QueueFamily.queue_type(), QueueType::General);
    assert_eq!(QueueFamily.max_queues(), 1);
    assert_eq!(QueueFamily.id(), QueueFamilyId(0));
}

#[test]
fn requirements_are_placeholders() {
    for r in [Device.get_buffer_requirements(&Handle), Device.get_image_requirements(&Handle)] {
        assert_eq!(r.size, 1);
        assert_eq!(r.alignment, 1);
        assert_eq!(r.type_mask, u64::MAX);
    }
}

#[test]
fn mappings_alias_the_scratch_region() {
    let memory_a = Device.allocate_memory(0, 16).unwrap();
    let memory_b = Device.allocate_memory(0, 1 << 20).unwrap();
    let a = Device.map_memory(&memory_a, Segment { offset: 0, size: None }).unwrap();
    let b = Device.map_memory(&memory_b, Segment { offset: 128, size: Some(64) }).unwrap();
    assert_eq!(a, b);
    assert_eq!(a.offset, 0);
    assert_eq!(a.len, SCRATCH_SIZE);
    assert_eq!(SCRATCH_SIZE, 640 * 1024);
}

#[test]
fn fence_wait_is_signaled_for_any_timeout() {
    let fence = Device.create_fence(false).unwrap();
    for timeout in [0u64, 1, 1_000_000, u64::MAX] {
        assert_eq!(Device.wait_for_fence(&fence, timeout), Ok(true));
    }
    assert!(Device.reset_fence(&fence).is_ok());
}

#[test]
fn command_buffer_round_trip() {
    let mut pool = Device.create_command_pool(QueueFamilyId(0), 0).unwrap();
    assert_eq!(check_level(Level::Primary), Ok(()));
    let mut cmd = pool.allocate_one(Level::Primary);
    cmd.begin(0, None);
    cmd.begin_render_pass(&Handle, &Handle, 1);
    cmd.set_viewports(0, 1);
    cmd.draw(0, 3, 0, 1);
    cmd.end_render_pass();
    cmd.finish();
    assert_eq!(cmd, CommandBuffer);
    let mut queue = CommandQueue;
    queue.submit(1, 0, 0, None);
    Device.destroy_command_pool(pool);
}

#[test]
fn secondary_level_is_rejected() {
    assert_eq!(check_level(Level::Secondary), Err(SecondaryLevel));
    assert_eq!(SecondaryLevel.message(), "Only primary command buffers are supported");
}

#[test]
fn surface_capabilities() {
    let caps = Surface.capabilities(&PhysicalDevice);
    assert_eq!(caps.min_image_count, 1);
    assert_eq!(caps.max_image_count, 1);
    assert_eq!(caps.max_image_layers, 1);
    assert_eq!(caps.current_extent, None);
    assert_eq!(caps.min_extent, Extent2D { width: 0, height: 0 });
    assert_eq!(caps.max_extent, Extent2D { width: 8192, height: 4096 });
    assert_eq!(caps.usage, 0x10);
    assert_eq!(caps.present_modes, 0xF);
    assert_eq!(caps.composite_alpha_modes, 0x1);
    assert!(Surface.supports_queue_family(&QueueFamily));
    assert!(Surface.supported_formats(&PhysicalDevice).is_none());
}

#[test]
fn surface_presentation_path() {
    let mut surface = Instance.create_surface().unwrap();
    let config = SwapchainConfig {
        present_mode: 0x4,
        extent: Extent2D { width: 640, height: 480 },
        image_count: 1,
        image_layers: 1,
        image_usage: 0x10,
    };
    assert!(surface.configure_swapchain(&Device, config).is_ok());
    let (image, suboptimal) = surface.acquire_image(0).unwrap();
    assert_eq!(image, Handle);
    assert!(suboptimal.is_none());
    let mut queue = CommandQueue;
    assert_eq!(queue.present_surface(&mut surface, image, None), Ok(None));
    surface.unconfigure_swapchain(&Device);
    Instance.destroy_surface(surface);
}

#[test]
fn unsupported_operations_report_the_fixed_message() {
    assert_eq!(Unsupported.message(), UNSUPPORTED_MESSAGE);
    assert!(UNSUPPORTED_MESSAGE.contains("enable a native API feature"));
    assert_eq!(PhysicalDevice.features(), Err(Unsupported));
    assert_eq!(PhysicalDevice.hints(), Err(Unsupported));
    assert_eq!(Device.create_pipeline_cache(None), Err(Unsupported));
    assert_eq!(Device.create_event(), Err(Unsupported));
    assert_eq!(Device.create_query_pool(0, 4), Err(Unsupported));
    assert_eq!(Device.get_fence_status(&Handle), Err(Unsupported));
    let mut object = Handle;
    assert_eq!(Device.set_buffer_name(&mut object, "b"), Err(Unsupported));
    let mut cmd = CommandBuffer;
    assert_eq!(cmd.dispatch(1, 1, 1), Err(Unsupported));
    assert_eq!(cmd.draw_indexed(0, 3, 0, 0, 1), Err(Unsupported));
    assert_eq!(cmd.end_debug_marker(), Err(Unsupported));
    let mut queue = CommandQueue;
    assert_eq!(queue.present(1, 0), Err(Unsupported));
    assert_eq!(queue.wait_idle(), Err(Unsupported));
}

#[test]
fn device_creation_calls_succeed() {
    assert!(Device.create_semaphore().is_ok());
    assert!(Device.create_buffer(256, 0x1).is_ok());
    assert!(Device.create_shader_module(&[0x0723_0203]).is_ok());
    assert!(Device.create_render_pass(1, 1, 0).is_ok());
    assert!(Device.flush_mapped_memory_ranges(&[(Handle, Segment { offset: 0, size: None })]).is_ok());
    assert!(Device.wait_idle().is_ok());
    let mut pool = Device.create_descriptor_pool(4, 1).unwrap();
    assert_eq!(pool.allocate_set(&Handle), Ok(Handle));
    assert_eq!(pool.reset(), Err(Unsupported));
}
