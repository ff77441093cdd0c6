//! The memory-type abstraction: mapping the explicit heap/type model
//! onto the legacy context's much coarser allocation model.

use vstd::prelude::*;

verus! {

/// Memory-property bit: the memory is local to the device.
pub const DEVICE_LOCAL: u32 = 0x1;
/// Memory-property bit: the memory can be mapped into host memory.
pub const CPU_VISIBLE: u32 = 0x2;
/// Memory-property bit: host and device see writes without explicit
/// flush or invalidate calls by the application.
pub const COHERENT: u32 = 0x4;
/// Memory-property bit: host reads go through the processor cache.
pub const CPU_CACHED: u32 = 0x8;

/// The heap-size sentinel reported for every heap: the legacy context
/// exposes no queryable heap budget.
pub const HEAP_SIZE_UNKNOWN: u64 = 0xFFFF_FFFF_FFFF_FFFF;

/// One allocation class.
#[derive(Copy, Clone, Debug, PartialEq, Eq, Structural)]
pub struct MemoryType {
    /// Bit-set over the `DEVICE_LOCAL` .. `CPU_CACHED` constants.
    pub properties: u32,
    /// Which heap allocations of this type come from.
    pub heap_index: usize,
}

/// The full memory model the adapter reports.
#[derive(Clone, Debug)]
pub struct MemoryProperties {
    pub memory_types: Vec<MemoryType>,
    pub memory_heaps: Vec<u64>,
}

/// The memory types owed when buffer mapping is supported: one
/// device-local type on its own heap, an upload type and a cached
/// download type on the host-visible heap.  Both mappable types are
/// coherent because the backend flushes and invalidates around every
/// mapped access itself.
pub open spec fn spec_mapped_memory_types() -> Seq<MemoryType> {
    seq![
        MemoryType { properties: DEVICE_LOCAL, heap_index: 1 },
        MemoryType { properties: CPU_VISIBLE | COHERENT, heap_index: 0 },
        MemoryType { properties: CPU_VISIBLE | COHERENT | CPU_CACHED, heap_index: 0 },
    ]
}

/// The single memory type owed when mapping is unsupported.
pub open spec fn spec_unmapped_memory_types() -> Seq<MemoryType> {
    seq![MemoryType { properties: DEVICE_LOCAL, heap_index: 0 }]
}

/// What `memory_properties_from_caps` returns: the memory types for
/// the given mapping capability.
pub open spec fn spec_memory_types(map: bool) -> Seq<MemoryType> {
    if map {
        spec_mapped_memory_types()
    } else {
        spec_unmapped_memory_types()
    }
}

/// How many heaps back those types: two when mapping is supported,
/// one otherwise.
pub open spec fn spec_heap_count(map: bool) -> int {
    if map {
        2
    } else {
        1
    }
}

/// Compute the memory model from the one capability flag it depends
/// on: whether the context supports buffer mapping.
pub fn memory_properties_from_caps(map: bool) -> (r: MemoryProperties)
    ensures
        r.memory_types@ == spec_memory_types(map),
        r.memory_heaps@.len() == spec_heap_count(map),
        forall|i: int|
            0 <= i < r.memory_heaps@.len() ==> r.memory_heaps@[i] == HEAP_SIZE_UNKNOWN,
{
    if map {
        let memory_types = vec![
            MemoryType { properties: DEVICE_LOCAL, heap_index: 1 },
            MemoryType { properties: CPU_VISIBLE | COHERENT, heap_index: 0 },
            MemoryType { properties: CPU_VISIBLE | COHERENT | CPU_CACHED, heap_index: 0 },
        ];
        let memory_heaps = vec![HEAP_SIZE_UNKNOWN, HEAP_SIZE_UNKNOWN];
        proof {
            assert(memory_types@ =~= spec_mapped_memory_types());
        }
        MemoryProperties { memory_types, memory_heaps }
    } else {
        let memory_types = vec![MemoryType { properties: DEVICE_LOCAL, heap_index: 0 }];
        let memory_heaps = vec![HEAP_SIZE_UNKNOWN];
        proof {
            assert(memory_types@ =~= spec_unmapped_memory_types());
        }
        MemoryProperties { memory_types, memory_heaps }
    }
}

/// Whatever the capability flag, the reported memory model offers a
/// device-local type, exactly one type and heap without mapping
/// support and exactly three types over two heaps with it.
pub proof fn lemma_memory_properties_shape(map: bool)
    ensures
        exists|i: int|
            0 <= i < spec_memory_types(map).len() && spec_memory_types(map)[i].properties
                & DEVICE_LOCAL == DEVICE_LOCAL,
        !map ==> spec_memory_types(map).len() == 1 && spec_heap_count(map) == 1,
        map ==> spec_memory_types(map).len() == 3 && spec_heap_count(map) == 2,
{
    assert(spec_memory_types(map)[0].properties == DEVICE_LOCAL);
    assert(DEVICE_LOCAL & DEVICE_LOCAL == DEVICE_LOCAL) by (bit_vector);
}

} // verus!
