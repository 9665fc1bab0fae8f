use gpu_readback::device::{
    check_extension_support, AdapterInfo, AdapterType, Extent2D, PhysicalDevice, Requirements,
    FORMAT_FEATURE_TRANSFER_DST, FORMAT_FEATURE_TRANSFER_SRC, TARGET_API_VERSION,
};
use gpu_readback::device::select_adapter;
use gpu_readback::memory::{MemoryHeap, MemoryProperties, MemoryType, MEMORY_DEVICE_LOCAL};
use gpu_readback::queue::{
    map_queue_families, QueueFamilyProperties, QUEUE_COMPUTE, QUEUE_GRAPHICS, QUEUE_TRANSFER,
};

fn family(flags: u32, count: u32) -> QueueFamilyProperties {
    QueueFamilyProperties { queue_flags: flags, queue_count: count }
}

fn requirements() -> Requirements {
    Requirements {
        min_api_version: TARGET_API_VERSION,
        extensions: vec![],
        optimal_tiling_features: FORMAT_FEATURE_TRANSFER_SRC | FORMAT_FEATURE_TRANSFER_DST,
        linear_tiling_features: FORMAT_FEATURE_TRANSFER_DST,
        image_extent: Extent2D { width: 400, height: 800 },
    }
}

fn adapter(handle: u64, kind: AdapterType, families: Vec<QueueFamilyProperties>) -> AdapterInfo {
    AdapterInfo {
        handle,
        api_version: TARGET_API_VERSION,
        adapter_type: kind,
        extensions: vec!["VK_KHR_swapchain".to_string()],
        optimal_tiling_features: FORMAT_FEATURE_TRANSFER_SRC | FORMAT_FEATURE_TRANSFER_DST,
        linear_tiling_features: FORMAT_FEATURE_TRANSFER_DST,
        optimal_max_extent: Extent2D { width: 16384, height: 16384 },
        linear_max_extent: Extent2D { width: 16384, height: 16384 },
        queue_families: families,
        memory_properties: MemoryProperties {
            memory_types: vec![MemoryType { property_flags: MEMORY_DEVICE_LOCAL, heap_index: 0 }],
            memory_heaps: vec![MemoryHeap { size: 1 << 30, flags: 1 }],
        },
        max_memory_allocation_size: 1 << 30,
    }
}

fn graphics_only() -> Vec<QueueFamilyProperties> {
    vec![family(QUEUE_GRAPHICS | QUEUE_COMPUTE | QUEUE_TRANSFER, 16)]
}

fn specialized() -> Vec<QueueFamilyProperties> {
    vec![
        family(QUEUE_GRAPHICS | QUEUE_COMPUTE | QUEUE_TRANSFER, 16),
        family(QUEUE_COMPUTE | QUEUE_TRANSFER, 8),
        family(QUEUE_TRANSFER, 2),
    ]
}

#[test]
fn adapter_without_graphics_is_never_selected() {
    let no_graphics = vec![family(QUEUE_COMPUTE | QUEUE_TRANSFER, 4), family(QUEUE_TRANSFER, 1)];
    let adapters = vec![adapter(1, AdapterType::DiscreteGpu, no_graphics.clone())];
    assert!(select_adapter(&adapters, &requirements()).is_none());

    let adapters = vec![
        adapter(1, AdapterType::DiscreteGpu, no_graphics),
        adapter(2, AdapterType::Cpu, graphics_only()),
    ];
    let (index, _) = select_adapter(&adapters, &requirements()).unwrap();
    assert_eq!(index, 1);
}

#[test]
fn dedicated_families_fill_compute_and_transfer() {
    let families = map_queue_families(&specialized()).unwrap();
    assert_eq!(families.graphics.index, 0);
    assert_eq!(families.compute.unwrap().index, 1);
    assert_eq!(families.compute.unwrap().queue_count, 8);
    assert_eq!(families.transfer.unwrap().index, 2);
    assert_eq!(families.get_compute_index(), 1);
    assert_eq!(families.get_transfer_index(), 2);
    assert_eq!(families.unique_indices, vec![0, 1, 2]);
}

#[test]
fn missing_dedicated_families_fall_back_to_graphics() {
    let props = vec![family(QUEUE_TRANSFER, 1), family(QUEUE_GRAPHICS | QUEUE_COMPUTE, 4)];
    let families = map_queue_families(&props).unwrap();
    assert_eq!(families.graphics.index, 1);
    assert!(families.compute.is_none());
    assert_eq!(families.transfer.unwrap().index, 0);
    assert_eq!(families.get_compute_index(), 1);
    assert_eq!(families.get_transfer_index(), 0);
    assert_eq!(families.unique_indices, vec![1, 0]);

    let families = map_queue_families(&graphics_only()).unwrap();
    assert_eq!(families.get_compute_index(), 0);
    assert_eq!(families.get_transfer_index(), 0);
    assert_eq!(families.unique_indices, vec![0]);
}

#[test]
fn first_family_of_each_role_wins() {
    let props = vec![
        family(QUEUE_COMPUTE, 1),
        family(QUEUE_GRAPHICS, 2),
        family(QUEUE_COMPUTE | QUEUE_TRANSFER, 3),
        family(QUEUE_GRAPHICS | QUEUE_COMPUTE, 4),
    ];
    let families = map_queue_families(&props).unwrap();
    assert_eq!(families.graphics.index, 1);
    assert_eq!(families.graphics.queue_count, 2);
    assert_eq!(families.compute.unwrap().index, 0);
    assert!(families.transfer.is_none());
}

#[test]
fn no_graphics_family_maps_to_none() {
    assert!(map_queue_families(&vec![family(QUEUE_COMPUTE, 1)]).is_none());
    assert!(map_queue_families(&vec![]).is_none());
}

#[test]
fn discrete_preferred_over_integrated() {
    let adapters = vec![
        adapter(10, AdapterType::IntegratedGpu, specialized()),
        adapter(20, AdapterType::DiscreteGpu, specialized()),
    ];
    let (index, _) = select_adapter(&adapters, &requirements()).unwrap();
    assert_eq!(index, 1);
    let device = PhysicalDevice::select(adapters, &requirements()).unwrap();
    assert_eq!(device.handle, 20);
}

#[test]
fn specialization_outweighs_adapter_type() {
    let adapters = vec![
        adapter(10, AdapterType::DiscreteGpu, graphics_only()),
        adapter(20, AdapterType::Cpu, specialized()),
    ];
    let device = PhysicalDevice::select(adapters, &requirements()).unwrap();
    assert_eq!(device.handle, 20);
    assert_eq!(device.queue_families.unique_indices.len(), 3);
}

#[test]
fn ties_keep_the_first_adapter() {
    let adapters = vec![
        adapter(10, AdapterType::DiscreteGpu, specialized()),
        adapter(20, AdapterType::DiscreteGpu, specialized()),
    ];
    let device = PhysicalDevice::select(adapters, &requirements()).unwrap();
    assert_eq!(device.handle, 10);
}

#[test]
fn adapters_failing_requirements_are_filtered() {
    let req = requirements();
    let mut old_api = adapter(1, AdapterType::DiscreteGpu, specialized());
    old_api.api_version = TARGET_API_VERSION - 1;
    let mut bad_format = adapter(2, AdapterType::DiscreteGpu, specialized());
    bad_format.linear_tiling_features = FORMAT_FEATURE_TRANSFER_SRC;
    let mut too_small = adapter(3, AdapterType::DiscreteGpu, specialized());
    too_small.linear_max_extent = Extent2D { width: 400, height: 799 };
    let mut too_small_optimal = adapter(4, AdapterType::DiscreteGpu, specialized());
    too_small_optimal.optimal_max_extent = Extent2D { width: 399, height: 800 };
    let adapters = vec![old_api, bad_format, too_small, too_small_optimal];
    assert!(select_adapter(&adapters, &req).is_none());
    assert!(PhysicalDevice::select(adapters, &req).is_none());
}

#[test]
fn missing_extension_filters_adapter() {
    let mut req = requirements();
    req.extensions = vec!["VK_KHR_swapchain".to_string(), "VK_EXT_other".to_string()];
    let adapters = vec![adapter(1, AdapterType::DiscreteGpu, specialized())];
    assert!(select_adapter(&adapters, &req).is_none());
    req.extensions = vec!["VK_KHR_swapchain".to_string()];
    assert!(select_adapter(&adapters, &req).is_some());
}

#[test]
fn extension_support_checks_every_name() {
    let available = vec!["a".to_string(), "b".to_string()];
    assert!(check_extension_support(&available, &vec![]));
    assert!(check_extension_support(&available, &vec!["b".to_string(), "a".to_string()]));
    assert!(!check_extension_support(&available, &vec!["c".to_string()]));
    assert!(!check_extension_support(&vec![], &vec!["a".to_string()]));
}

#[test]
fn adapter_type_from_raw_and_rank() {
    assert_eq!(AdapterType::from_raw(2), AdapterType::DiscreteGpu);
    assert_eq!(AdapterType::from_raw(1), AdapterType::IntegratedGpu);
    assert_eq!(AdapterType::from_raw(3), AdapterType::VirtualGpu);
    assert_eq!(AdapterType::from_raw(4), AdapterType::Cpu);
    assert_eq!(AdapterType::from_raw(0), AdapterType::Other);
    assert_eq!(AdapterType::from_raw(9), AdapterType::Unrecognized(9));
    assert_eq!(AdapterType::DiscreteGpu.rank(), 0);
    assert_eq!(AdapterType::Unrecognized(9).rank(), 5);
    assert_eq!(AdapterType::Cpu.name(), "CPU");
}
