use gpu_readback::errors::AllocationError;
use gpu_readback::memory::{
    plan_allocation, MemoryHeap, MemoryProperties, MemoryRequirements, MemoryType,
    MEMORY_DEVICE_LOCAL, MEMORY_HOST_CACHED, MEMORY_HOST_COHERENT, MEMORY_HOST_VISIBLE,
};

fn properties() -> MemoryProperties {
    MemoryProperties {
        memory_types: vec![
            MemoryType { property_flags: MEMORY_DEVICE_LOCAL, heap_index: 0 },
            MemoryType { property_flags: MEMORY_HOST_VISIBLE | MEMORY_HOST_COHERENT, heap_index: 1 },
            MemoryType {
                property_flags: MEMORY_HOST_VISIBLE | MEMORY_HOST_COHERENT | MEMORY_HOST_CACHED,
                heap_index: 1,
            },
            MemoryType { property_flags: MEMORY_DEVICE_LOCAL | MEMORY_HOST_VISIBLE, heap_index: 0 },
        ],
        memory_heaps: vec![
            MemoryHeap { size: 1 << 32, flags: 1 },
            MemoryHeap { size: 1 << 33, flags: 0 },
        ],
    }
}

fn reqs(size: u64, alignment: u64, bits: u32) -> MemoryRequirements {
    MemoryRequirements { size, alignment, memory_type_bits: bits }
}

#[test]
fn find_memory_type_takes_lowest_allowed_match() {
    let p = properties();
    assert_eq!(p.find_memory_type(0b1111, MEMORY_HOST_VISIBLE), Ok(1));
    assert_eq!(p.find_memory_type(0b1100, MEMORY_HOST_VISIBLE), Ok(2));
    assert_eq!(p.find_memory_type(0b1111, MEMORY_DEVICE_LOCAL | MEMORY_HOST_VISIBLE), Ok(3));
    assert_eq!(p.find_memory_type(0b0111, MEMORY_DEVICE_LOCAL | MEMORY_HOST_VISIBLE), Err(()));
    assert_eq!(p.find_memory_type(0, 0), Err(()));
    assert_eq!(p.find_memory_type(0b1000, 0), Ok(3));
}

#[test]
fn optimal_memory_type_falls_back_to_required() {
    let p = properties();
    assert_eq!(p.find_optimal_memory_type(0b1111, MEMORY_HOST_VISIBLE, MEMORY_HOST_CACHED), Ok(2));
    assert_eq!(p.find_optimal_memory_type(0b1011, MEMORY_HOST_VISIBLE, MEMORY_HOST_CACHED), Ok(1));
    assert_eq!(p.find_optimal_memory_type(0b0001, MEMORY_HOST_VISIBLE, MEMORY_HOST_CACHED), Err(()));
    assert_eq!(p.find_optimal_memory_type(0b1111, 0, MEMORY_DEVICE_LOCAL), Ok(0));
}

#[test]
fn allocation_honours_required_and_optional_properties() {
    let p = properties();
    let one = vec![reqs(4096, 256, 0b1111)];
    let plan = plan_allocation(&p, 1 << 30, &one, MEMORY_HOST_VISIBLE, MEMORY_HOST_CACHED).unwrap();
    assert_eq!(plan.memory_type_index, 2);
    assert_eq!(plan.size, 4096);
    assert_eq!(plan.offsets, vec![0]);

    let no_cached = vec![reqs(4096, 256, 0b1011)];
    let plan =
        plan_allocation(&p, 1 << 30, &no_cached, MEMORY_HOST_VISIBLE, MEMORY_HOST_CACHED).unwrap();
    assert_eq!(plan.memory_type_index, 1);

    let device_only = vec![reqs(4096, 256, 0b0001)];
    assert_eq!(
        plan_allocation(&p, 1 << 30, &device_only, MEMORY_HOST_VISIBLE, MEMORY_HOST_CACHED)
            .unwrap_err(),
        AllocationError::NoCompatibleMemoryType
    );
}

#[test]
fn shared_allocation_intersects_type_bits_and_aligns_offsets() {
    let p = properties();
    let several = vec![reqs(100, 1, 0b1110), reqs(10, 64, 0b0110), reqs(5, 0, 0b1111), reqs(7, 16, 0b0111)];
    let plan = plan_allocation(&p, 1 << 30, &several, MEMORY_HOST_VISIBLE, 0).unwrap();
    assert_eq!(plan.memory_type_index, 1);
    assert_eq!(plan.offsets, vec![0, 128, 138, 144]);
    assert_eq!(plan.size, 151);

    let disjoint = vec![reqs(100, 1, 0b0001), reqs(10, 1, 0b0010)];
    assert_eq!(
        plan_allocation(&p, 1 << 30, &disjoint, 0, 0).unwrap_err(),
        AllocationError::NoCompatibleMemoryType
    );
}

#[test]
fn allocation_over_the_limit_is_too_large() {
    let p = properties();
    let big = vec![reqs(1000, 1, 0b1111), reqs(25, 8, 0b1111)];
    assert_eq!(plan_allocation(&p, 1024, &big, 0, 0).unwrap_err(), AllocationError::TooLarge);
    assert_eq!(plan_allocation(&p, 1025, &big, 0, 0).unwrap().size, 1025);
    let huge = vec![reqs(u64::MAX, 1, 0b1111), reqs(1, 2, 0b1111)];
    assert_eq!(plan_allocation(&p, u64::MAX, &huge, 0, 0).unwrap_err(), AllocationError::TooLarge);
}
