use gfx_backend_gl::info::Info;
use gfx_backend_gl::info::Limits;
use gfx_backend_gl::info::PlatformName;
use gfx_backend_gl::info::PrivateCaps;
use gfx_backend_gl::info::SRGB_COLOR;
use gfx_backend_gl::info::Version;
use gfx_backend_gl::physical::Adapter;
use gfx_backend_gl::physical::DeviceCreationError;
use gfx_backend_gl::physical::PhysicalDevice;
use gfx_backend_gl::physical::QueueFamily;
use gfx_backend_gl::physical::QueueFamilyId;
use gfx_backend_gl::physical::QueueType;
use gfx_backend_gl::share::GlContainer;
use gfx_backend_gl::share::ShareCell;

const OWNER: u64 = 21;
const SUPPORTED_FEATURES: u64 = 0b1011;

fn enumerate(vertex_array: bool, map: bool, legacy: u32, embedded: bool) -> (ShareCell, Adapter) {
    let version = if embedded { Version::new_embedded(3, 0) } else { Version::new(4, 1) };
    PhysicalDevice::new_adapter(
        GlContainer { context: 3 },
        Info {
            platform_name: PlatformName {
                vendor: String::from("acme"),
                renderer: String::from("emulated gl"),
            },
            version,
            shading_language: version,
            extensions: vec![String::from("EXT_example")],
        },
        SUPPORTED_FEATURES,
        legacy,
        Limits { max_texture_size: 4096, max_viewports: 16, max_compute_group_count: 64 },
        PrivateCaps { vertex_array, map },
        1,
        OWNER,
    )
}

#[test]
fn enumeration_reports_one_general_family() {
    let (_cell, adapter) = enumerate(true, true, 0, false);
    assert_eq!(adapter.info.name, "emulated gl");
    assert_eq!(adapter.queue_families.len(), 1);
    let family = &adapter.queue_families[0];
    assert_eq!(family.queue_type(), QueueType::General);
    assert_eq!(family.max_queues(), 1);
    assert_eq!(family.id(), QueueFamilyId(0));
}

#[test]
fn capability_queries_report_the_registry() {
    let (cell, adapter) = enumerate(true, true, SRGB_COLOR, false);
    let physical = &adapter.physical_device;
    assert_eq!(physical.features(&cell, OWNER), SUPPORTED_FEATURES);
    assert_eq!(physical.legacy_features(&cell, OWNER), SRGB_COLOR);
    assert_eq!(physical.limits(&cell, OWNER).max_texture_size, 4096);
    // Off the owning thread the registry is unreachable.
    assert!(physical.try_share(&cell, OWNER + 1).is_none());
    assert_eq!(physical.try_share(&cell, OWNER).unwrap().features, SUPPORTED_FEATURES);
    // The memory model through the adapter follows its mapping flag.
    let props = physical.memory_properties(&cell, OWNER);
    assert_eq!(props.memory_types.len(), 3);
    assert_eq!(props.memory_heaps.len(), 2);
    let (cell2, adapter2) = enumerate(true, false, 0, false);
    let props2 = adapter2.physical_device.memory_properties(&cell2, OWNER);
    assert_eq!(props2.memory_types.len(), 1);
    assert_eq!(props2.memory_heaps.len(), 1);
}

#[test]
fn open_applies_baseline_state_from_capabilities() {
    let (mut cell, adapter) = enumerate(true, true, SRGB_COLOR, false);
    let physical = adapter.physical_device;
    let families = vec![(QueueFamily, 1usize)];
    let plan = physical
        .open(&mut cell, &families, SUPPORTED_FEATURES, OWNER)
        .expect("supported features must open");
    assert!(plan.enable_srgb);
    assert_eq!(plan.unpack_alignment, 1);
    assert!(plan.enable_point_size);
    assert!(plan.create_vao);
}

#[test]
fn open_on_embedded_profile_skips_point_size() {
    let (mut cell, adapter) = enumerate(false, false, 0, true);
    let physical = adapter.physical_device;
    let families = vec![(QueueFamily, 1usize)];
    let plan = physical.open(&mut cell, &families, 0, OWNER).expect("no features requested");
    assert!(!plan.enable_srgb);
    assert_eq!(plan.unpack_alignment, 1);
    assert!(!plan.enable_point_size);
    assert!(!plan.create_vao);
}

#[test]
fn second_open_fails_with_too_many_objects() {
    let (mut cell, adapter) = enumerate(true, true, 0, false);
    let physical = adapter.physical_device;
    let families = vec![(QueueFamily, 1usize)];
    assert!(physical.open(&mut cell, &families, 0, OWNER).is_ok());
    let strong_before = cell.strong();
    let second = physical.open(&mut cell, &families, 0, OWNER);
    assert_eq!(second, Err(DeviceCreationError::TooManyObjects));
    // The second attempt changed nothing.
    assert_eq!(cell.strong(), strong_before);
    let third = physical.open(&mut cell, &families, 0, OWNER);
    assert_eq!(third, Err(DeviceCreationError::TooManyObjects));
}

#[test]
fn open_with_uncontained_features_fails_and_permits_retry() {
    let (mut cell, adapter) = enumerate(true, true, 0, false);
    let physical = adapter.physical_device;
    let families = vec![(QueueFamily, 1usize)];
    let requested = SUPPORTED_FEATURES | 0b100;
    let refused = physical.open(&mut cell, &families, requested, OWNER);
    assert_eq!(refused, Err(DeviceCreationError::MissingFeature));
    // The refusal left the open flag unset: a corrected retry opens.
    assert!(physical.open(&mut cell, &families, SUPPORTED_FEATURES, OWNER).is_ok());
}

#[test]
fn session_objects_share_the_context_and_thread_the_vao() {
    let (mut cell, adapter) = enumerate(true, true, 0, false);
    let physical = adapter.physical_device;
    let families = vec![(QueueFamily, 1usize)];
    let plan = physical.open(&mut cell, &families, 0, OWNER).expect("open");
    assert!(plan.create_vao);
    // The embedding program allocated the baseline vertex-array
    // object natively and got id 5.
    let gpu = physical.build_gpu(&mut cell, &families, 5);
    // Physical device + logical device + one queue.
    assert_eq!(cell.strong(), 3);
    assert_eq!(gpu.queue_groups.len(), 1);
    assert_eq!(gpu.queue_groups[0].queues.len(), 1);
    assert_eq!(gpu.queue_groups[0].queues[0].vao_id(), 5);
}

#[test]
fn closing_the_device_lets_the_adapter_open_again() {
    let (mut cell, adapter) = enumerate(true, true, 0, false);
    let physical = adapter.physical_device;
    let families = vec![(QueueFamily, 1usize)];
    assert!(physical.open(&mut cell, &families, 0, OWNER).is_ok());
    let gpu = physical.build_gpu(&mut cell, &families, 5);
    assert_eq!(physical.open(&mut cell, &families, 0, OWNER), Err(DeviceCreationError::TooManyObjects));
    for group in gpu.queue_groups {
        for queue in group.queues {
            queue.dispose(&mut cell);
        }
    }
    gpu.device.close(&mut cell);
    assert_eq!(cell.strong(), 1);
    // The open flag is clear again.
    assert!(physical.open(&mut cell, &families, 0, OWNER).is_ok());
}
