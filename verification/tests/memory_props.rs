use gfx_backend_gl::memory::COHERENT;
use gfx_backend_gl::memory::CPU_CACHED;
use gfx_backend_gl::memory::CPU_VISIBLE;
use gfx_backend_gl::memory::DEVICE_LOCAL;
use gfx_backend_gl::memory::HEAP_SIZE_UNKNOWN;
use gfx_backend_gl::memory::memory_properties_from_caps;

#[test]
fn mapping_supported_gives_three_types_and_two_heaps() {
    let props = memory_properties_from_caps(true);
    assert_eq!(props.memory_types.len(), 3);
    assert_eq!(props.memory_heaps.len(), 2);

    // Device-local memory on its own heap.
    assert_eq!(props.memory_types[0].properties, DEVICE_LOCAL);
    assert_eq!(props.memory_types[0].heap_index, 1);
    // Upload memory: host-visible and coherent.
    assert_eq!(props.memory_types[1].properties, CPU_VISIBLE | COHERENT);
    assert_eq!(props.memory_types[1].heap_index, 0);
    // Download memory: host-visible, coherent and cached.
    assert_eq!(props.memory_types[2].properties, CPU_VISIBLE | COHERENT | CPU_CACHED);
    assert_eq!(props.memory_types[2].heap_index, 0);

    for heap in &props.memory_heaps {
        assert_eq!(*heap, HEAP_SIZE_UNKNOWN);
    }
}

#[test]
fn mapping_unsupported_gives_one_type_and_one_heap() {
    let props = memory_properties_from_caps(false);
    assert_eq!(props.memory_types.len(), 1);
    assert_eq!(props.memory_heaps.len(), 1);
    assert_eq!(props.memory_types[0].properties, DEVICE_LOCAL);
    assert_eq!(props.memory_types[0].heap_index, 0);
    assert_eq!(props.memory_heaps[0], HEAP_SIZE_UNKNOWN);
}

#[test]
fn device_local_type_is_always_present() {
    for map in [false, true] {
        let props = memory_properties_from_caps(map);
        assert!(props
            .memory_types
            .iter()
            .any(|t| t.properties & DEVICE_LOCAL == DEVICE_LOCAL));
    }
}
