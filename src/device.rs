//! Adapter filtering and ranking, and the selected adapter with what was
//! learned about it.

use vstd::prelude::*;
use crate::errors::AllocationError;
use crate::memory::{
    allocation_outcome, plan_allocation, AllocationPlan, MemoryHeap, MemoryProperties,
    MemoryRequirements, MemoryType,
};
use crate::queue::{
    exists_where, has_flag, map_queue_families, specialized_family_count, QueueFamilies,
    QueueFamilyProperties, QueueRole,
};

verus! {

/// Format feature: the format can be the source of a transfer.
pub const FORMAT_FEATURE_TRANSFER_SRC: u32 = 0x4000;

/// Format feature: the format can be the destination of a transfer.
pub const FORMAT_FEATURE_TRANSFER_DST: u32 = 0x8000;

/// Image usage: source of a transfer.
pub const IMAGE_USAGE_TRANSFER_SRC: u32 = 0x1;

/// Image usage: destination of a transfer.
pub const IMAGE_USAGE_TRANSFER_DST: u32 = 0x2;

/// Image usage asked of optimally tiled images of the workload.
pub const REQUIRED_IMAGE_USAGE_OPTIMAL: u32 = 0x3;

/// Image usage asked of linearly tiled images of the workload.
pub const REQUIRED_IMAGE_USAGE_LINEAR: u32 = 0x2;

/// Lowest API version the workload runs on (1.3.0).
pub const TARGET_API_VERSION: u32 = 0x0040_3000;

/// The kind of an adapter, as the hardware reports it.
#[derive(Clone, Copy, Debug, PartialEq, Eq, Structural)]
pub enum AdapterType {
    Other,
    IntegratedGpu,
    DiscreteGpu,
    VirtualGpu,
    Cpu,
    Unrecognized(i32),
}

impl AdapterType {
    pub open spec fn from_raw_spec(raw: i32) -> AdapterType {
        if raw == 0 {
            AdapterType::Other
        } else if raw == 1 {
            AdapterType::IntegratedGpu
        } else if raw == 2 {
            AdapterType::DiscreteGpu
        } else if raw == 3 {
            AdapterType::VirtualGpu
        } else if raw == 4 {
            AdapterType::Cpu
        } else {
            AdapterType::Unrecognized(raw)
        }
    }

    /// The adapter type for a raw type code.
    pub fn from_raw(raw: i32) -> (r: Self)
        ensures
            r == Self::from_raw_spec(raw),
    {
        if raw == 0 {
            AdapterType::Other
        } else if raw == 1 {
            AdapterType::IntegratedGpu
        } else if raw == 2 {
            AdapterType::DiscreteGpu
        } else if raw == 3 {
            AdapterType::VirtualGpu
        } else if raw == 4 {
            AdapterType::Cpu
        } else {
            AdapterType::Unrecognized(raw)
        }
    }

    /// Rank of the type, lower is better: discrete, integrated, virtual,
    /// CPU, other, then anything unrecognized.
    pub open spec fn rank_spec(&self) -> u32 {
        match self {
            AdapterType::DiscreteGpu => 0,
            AdapterType::IntegratedGpu => 1,
            AdapterType::VirtualGpu => 2,
            AdapterType::Cpu => 3,
            AdapterType::Other => 4,
            AdapterType::Unrecognized(_) => 5,
        }
    }

    pub fn rank(&self) -> (r: u32)
        ensures
            r == self.rank_spec(),
    {
        match self {
            AdapterType::DiscreteGpu => 0,
            AdapterType::IntegratedGpu => 1,
            AdapterType::VirtualGpu => 2,
            AdapterType::Cpu => 3,
            AdapterType::Other => 4,
            AdapterType::Unrecognized(_) => 5,
        }
    }

    /// Readable name of the type.
    pub fn name(&self) -> (r: &'static str)
        ensures
            r@ == (match self {
                AdapterType::DiscreteGpu => "Discrete GPU"@,
                AdapterType::IntegratedGpu => "Integrated GPU"@,
                AdapterType::VirtualGpu => "Virtual GPU"@,
                AdapterType::Cpu => "CPU"@,
                AdapterType::Other => "Other"@,
                AdapterType::Unrecognized(_) => "Unknown"@,
            }),
    {
        match self {
            AdapterType::DiscreteGpu => "Discrete GPU",
            AdapterType::IntegratedGpu => "Integrated GPU",
            AdapterType::VirtualGpu => "Virtual GPU",
            AdapterType::Cpu => "CPU",
            AdapterType::Other => "Other",
            AdapterType::Unrecognized(_) => "Unknown",
        }
    }
}

/// Width and height of an image, in pixels.
#[derive(Clone, Copy, Debug, PartialEq, Eq, Structural)]
pub struct Extent2D {
    pub width: u32,
    pub height: u32,
}

/// What probing one adapter found.
#[derive(Debug)]
pub struct AdapterInfo {
    /// The adapter's handle, as an integer.
    pub handle: u64,
    pub api_version: u32,
    pub adapter_type: AdapterType,
    /// Names of the device extensions that the adapter supports.
    pub extensions: Vec<String>,
    /// Features of the workload's pixel format under optimal tiling.
    pub optimal_tiling_features: u32,
    /// Features of the workload's pixel format under linear tiling.
    pub linear_tiling_features: u32,
    /// Largest image of the workload's format and usage, optimal tiling.
    pub optimal_max_extent: Extent2D,
    /// Largest image of the workload's format and usage, linear tiling.
    pub linear_max_extent: Extent2D,
    pub queue_families: Vec<QueueFamilyProperties>,
    pub memory_properties: MemoryProperties,
    pub max_memory_allocation_size: u64,
}

/// The hard requirements that an adapter must meet.
#[derive(Debug)]
pub struct Requirements {
    pub min_api_version: u32,
    pub extensions: Vec<String>,
    pub optimal_tiling_features: u32,
    pub linear_tiling_features: u32,
    /// Size of the workload's output image.
    pub image_extent: Extent2D,
}

impl AdapterInfo {
    pub open spec fn wf(&self) -> bool {
        &&& self.queue_families@.len() <= u32::MAX
        &&& self.memory_properties.wf()
    }
}

/// `name` is among the available extension names.
pub open spec fn contains_name(available: Seq<String>, name: Seq<char>) -> bool {
    exists|j: int| 0 <= j < available.len() && (#[trigger] available[j])@ == name
}

/// Every required extension name is among the available ones.
pub open spec fn extensions_supported(available: Seq<String>, required: Seq<String>) -> bool {
    forall|k: int| 0 <= k < required.len() ==> contains_name(available, (#[trigger] required[k])@)
}

pub open spec fn extent_covers(max: Extent2D, wanted: Extent2D) -> bool {
    wanted.width <= max.width && wanted.height <= max.height
}

/// The adapter passes every filter: API version, extensions, format
/// features under both tilings, and image size under both tilings.
pub open spec fn meets_requirements(a: AdapterInfo, req: Requirements) -> bool {
    &&& a.api_version >= req.min_api_version
    &&& extensions_supported(a.extensions@, req.extensions@)
    &&& has_flag(a.optimal_tiling_features, req.optimal_tiling_features)
    &&& has_flag(a.linear_tiling_features, req.linear_tiling_features)
    &&& extent_covers(a.linear_max_extent, req.image_extent)
    &&& extent_covers(a.optimal_max_extent, req.image_extent)
}

/// The adapter can be selected at all.
pub open spec fn is_candidate(a: AdapterInfo, req: Requirements) -> bool {
    meets_requirements(a, req) && exists_where(a.queue_families@, QueueRole::Graphics)
}

/// Score of a candidate, lower is better. Fewer dedicated families weigh
/// more than any difference of adapter type.
pub open spec fn adapter_score(a: AdapterInfo) -> int {
    (3 - specialized_family_count(a.queue_families@)) * 8 + a.adapter_type.rank_spec()
}

/// Adapter `i` is the one to select: a candidate of minimal score, the first
/// of those.
pub open spec fn is_selected(adapters: Seq<AdapterInfo>, req: Requirements, i: int) -> bool {
    &&& 0 <= i < adapters.len()
    &&& is_candidate(adapters[i], req)
    &&& forall|j: int|
        0 <= j < adapters.len() && is_candidate(#[trigger] adapters[j], req) ==> adapter_score(
            adapters[i],
        ) <= adapter_score(adapters[j])
    &&& forall|j: int|
        0 <= j < i && is_candidate(#[trigger] adapters[j], req) ==> adapter_score(adapters[i])
            < adapter_score(adapters[j])
}

/// Every name of `required` is in `available`.
pub fn check_extension_support(available: &Vec<String>, required: &Vec<String>) -> (r: bool)
    ensures
        r == extensions_supported(available@, required@),
{
    let mut k: usize = 0;
    while k < required.len()
        invariant
            k <= required@.len(),
            forall|m: int| 0 <= m < k ==> contains_name(available@, (#[trigger] required@[m])@),
        decreases required@.len() - k,
    {
        let mut found = false;
        let mut j: usize = 0;
        while j < available.len()
            invariant
                k < required@.len(),
                j <= available@.len(),
                found ==> contains_name(available@, required@[k as int]@),
                !found ==> forall|j2: int|
                    0 <= j2 < j ==> (#[trigger] available@[j2])@ != required@[k as int]@,
            decreases available@.len() - j,
        {
            if available[j] == required[k] {
                assert(available@[j as int]@ == required@[k as int]@);
                found = true;
            }
            j = j + 1;
        }
        if !found {
            assert(!contains_name(available@, required@[k as int]@));
            return false;
        }
        k = k + 1;
    }
    true
}

/// The pixel format has the required features under both tilings.
pub fn check_format_support(a: &AdapterInfo, req: &Requirements) -> (r: bool)
    ensures
        r == (has_flag(a.optimal_tiling_features, req.optimal_tiling_features) && has_flag(
            a.linear_tiling_features,
            req.linear_tiling_features,
        )),
{
    if a.optimal_tiling_features & req.optimal_tiling_features != req.optimal_tiling_features {
        return false;
    }
    if a.linear_tiling_features & req.linear_tiling_features != req.linear_tiling_features {
        return false;
    }
    true
}

/// The largest supported image covers the workload's image.
pub fn check_image_size_support(max_extent: &Extent2D, wanted: &Extent2D) -> (r: bool)
    ensures
        r == extent_covers(*max_extent, *wanted),
{
    wanted.width <= max_extent.width && wanted.height <= max_extent.height
}

/// The adapter passes every hard requirement.
pub fn check_requirements(a: &AdapterInfo, req: &Requirements) -> (r: bool)
    ensures
        r == meets_requirements(*a, *req),
{
    if a.api_version < req.min_api_version {
        return false;
    }
    if !check_extension_support(&a.extensions, &req.extensions) {
        return false;
    }
    if !check_format_support(a, req) {
        return false;
    }
    check_image_size_support(&a.linear_max_extent, &req.image_extent)
        && check_image_size_support(&a.optimal_max_extent, &req.image_extent)
}

/// Filters the adapters, maps each survivor's queue families onto roles,
/// and returns the index of the best candidate with its families: the
/// lowest score, the first one on ties. `None` when no adapter qualifies.
pub fn select_adapter(adapters: &Vec<AdapterInfo>, req: &Requirements) -> (r: Option<
    (usize, QueueFamilies),
>)
    requires
        forall|i: int| 0 <= i < adapters@.len() ==> (#[trigger] adapters@[i]).wf(),
    ensures
        r is None <==> forall|i: int|
            0 <= i < adapters@.len() ==> !is_candidate(#[trigger] adapters@[i], *req),
        r matches Some((i, f)) ==> {
            &&& is_selected(adapters@, *req, i as int)
            &&& f.wf()
            &&& f.chosen_from(adapters@[i as int].queue_families@)
        },
{
    let mut best: Option<(usize, QueueFamilies, u32)> = None;
    let mut i: usize = 0;
    while i < adapters.len()
        invariant
            i <= adapters@.len(),
            forall|k: int| 0 <= k < adapters@.len() ==> (#[trigger] adapters@[k]).wf(),
            best is None ==> forall|j: int| 0 <= j < i ==> !is_candidate(#[trigger] adapters@[j], *req),
            best matches Some((b, f, score)) ==> {
                &&& b < i
                &&& is_candidate(adapters@[b as int], *req)
                &&& score == adapter_score(adapters@[b as int])
                &&& f.wf()
                &&& f.chosen_from(adapters@[b as int].queue_families@)
                &&& forall|j: int|
                    0 <= j < i && is_candidate(#[trigger] adapters@[j], *req) ==> score
                        <= adapter_score(adapters@[j])
                &&& forall|j: int|
                    0 <= j < b && is_candidate(#[trigger] adapters@[j], *req) ==> score
                        < adapter_score(adapters@[j])
            },
        decreases adapters@.len() - i,
    {
        let adapter = &adapters[i];
        if check_requirements(adapter, req) {
            match map_queue_families(&adapter.queue_families) {
                None => {},
                Some(families) => {
                    let queue_score = (3 - families.unique_indices.len()) as u32;
                    let score = queue_score * 8 + adapter.adapter_type.rank();
                    let better = match &best {
                        None => true,
                        Some((_, _, best_score)) => score < *best_score,
                    };
                    if better {
                        best = Some((i, families, score));
                    }
                },
            }
        }
        i = i + 1;
    }
    match best {
        None => None,
        Some((b, families, _)) => Some((b, families)),
    }
}

/// An adapter without a graphics-capable queue family is never selected.
pub proof fn lemma_graphics_required(adapters: Seq<AdapterInfo>, req: Requirements, i: int)
    requires
        0 <= i < adapters.len(),
        !exists_where(adapters[i].queue_families@, QueueRole::Graphics),
    ensures
        !is_selected(adapters, req, i),
{
}

/// Of two candidates with the same queue specialization, a discrete adapter
/// is preferred over an integrated one, wherever the two stand in the list.
pub proof fn lemma_discrete_preferred(
    adapters: Seq<AdapterInfo>,
    req: Requirements,
    discrete: int,
    integrated: int,
)
    requires
        0 <= discrete < adapters.len(),
        0 <= integrated < adapters.len(),
        is_candidate(adapters[discrete], req),
        is_candidate(adapters[integrated], req),
        adapters[discrete].adapter_type == AdapterType::DiscreteGpu,
        adapters[integrated].adapter_type == AdapterType::IntegratedGpu,
        specialized_family_count(adapters[discrete].queue_families@) == specialized_family_count(
            adapters[integrated].queue_families@,
        ),
    ensures
        !is_selected(adapters, req, integrated),
        adapter_score(adapters[discrete]) < adapter_score(adapters[integrated]),
{
    assert(is_candidate(adapters[discrete], req));
}

/// More dedicated queue families outweigh the adapter type: a candidate with
/// more dedicated families beats one with fewer, whatever their types.
pub proof fn lemma_specialization_dominates(a: AdapterInfo, b: AdapterInfo)
    requires
        specialized_family_count(a.queue_families@) > specialized_family_count(
            b.queue_families@,
        ),
    ensures
        adapter_score(a) < adapter_score(b),
{
}

/// The adapter chosen for the workload, with what was learned about it.
#[derive(Debug)]
pub struct PhysicalDevice {
    /// The adapter's handle, as an integer.
    pub handle: u64,
    pub queue_families: QueueFamilies,
    pub mem_properties: MemoryProperties,
    pub max_memory_allocation_size: u64,
}

impl PhysicalDevice {
    pub open spec fn wf(&self) -> bool {
        &&& self.queue_families.wf()
        &&& self.mem_properties.wf()
    }

    pub open spec fn memory_properties(&self) -> MemoryProperties {
        self.mem_properties
    }

    pub open spec fn max_allocation_size(&self) -> u64 {
        self.max_memory_allocation_size
    }

    /// Selects the best adapter of those probed, keeping what was probed of
    /// it. `None` when no adapter qualifies: whether that is fatal is for the
    /// caller to decide.
    pub fn select(adapters: Vec<AdapterInfo>, req: &Requirements) -> (r: Option<PhysicalDevice>)
        requires
            forall|i: int| 0 <= i < adapters@.len() ==> (#[trigger] adapters@[i]).wf(),
        ensures
            r is None <==> forall|i: int|
                0 <= i < adapters@.len() ==> !is_candidate(#[trigger] adapters@[i], *req),
            r matches Some(d) ==> exists|i: int|
                #![trigger adapters@[i]]
                {
                    &&& is_selected(adapters@, *req, i)
                    &&& d.wf()
                    &&& d.handle == adapters@[i].handle
                    &&& d.queue_families.chosen_from(adapters@[i].queue_families@)
                    &&& d.memory_properties() == adapters@[i].memory_properties
                    &&& d.max_allocation_size() == adapters@[i].max_memory_allocation_size
                },
    {
        let mut adapters = adapters;
        match select_adapter(&adapters, req) {
            None => None,
            Some((i, queue_families)) => {
                let ghost all = adapters@;
                let adapter = adapters.remove(i);
                assert(adapter == all[i as int]);
                assert(adapter.wf());
                Some(
                    PhysicalDevice {
                        handle: adapter.handle,
                        queue_families,
                        mem_properties: adapter.memory_properties,
                        max_memory_allocation_size: adapter.max_memory_allocation_size,
                    },
                )
            },
        }
    }

    /// The lowest memory type allowed by `bits` with every flag of `flags`.
    pub fn find_memory_type(&self, bits: u32, flags: u32) -> (r: Result<u32, ()>)
        requires
            self.wf(),
        ensures
            r matches Ok(i) ==> self.memory_properties().lowest_suitable(bits, flags, i as int),
            r is Err <==> !self.memory_properties().exists_suitable(bits, flags),
    {
        self.mem_properties.find_memory_type(bits, flags)
    }

    /// A memory type with `required | optional`, else one with `required`.
    pub fn find_optimal_memory_type(&self, bits: u32, required: u32, optional: u32) -> (r: Result<
        u32,
        (),
    >)
        requires
            self.wf(),
        ensures
            self.memory_properties().exists_suitable(bits, required | optional) ==> (r matches Ok(
                i,
            ) && self.memory_properties().lowest_suitable(bits, required | optional, i as int)),
            !self.memory_properties().exists_suitable(bits, required | optional) ==> (r matches Ok(
                i,
            ) ==> self.memory_properties().lowest_suitable(bits, required, i as int)),
            r matches Ok(i) ==> self.memory_properties().suitable(bits, required, i as int),
            r is Err <==> !self.memory_properties().exists_suitable(bits, required),
    {
        self.mem_properties.find_optimal_memory_type(bits, required, optional)
    }

    /// Memory type `type_i`.
    pub fn get_memory_type(&self, type_i: u32) -> (r: MemoryType)
        requires
            type_i < self.memory_properties().memory_types@.len(),
        ensures
            r == self.memory_properties().memory_types@[type_i as int],
    {
        self.mem_properties.memory_types[type_i as usize]
    }

    /// The heap that memory type `type_i` lives in.
    pub fn get_memory_type_heap(&self, type_i: u32) -> (r: MemoryHeap)
        requires
            self.wf(),
            type_i < self.memory_properties().memory_types@.len(),
        ensures
            r == self.memory_properties().memory_heaps@[self.memory_properties().memory_types@[type_i as int].heap_index as int],
    {
        let memory_type = self.get_memory_type(type_i);
        self.mem_properties.memory_heaps[memory_type.heap_index as usize]
    }

    /// The heap that memory type `type_i` lives in.
    pub fn memory_type_heap(&self, type_i: usize) -> (r: MemoryHeap)
        requires
            self.wf(),
            type_i < self.memory_properties().memory_types@.len(),
        ensures
            r == self.memory_properties().memory_heaps@[self.memory_properties().memory_types@[type_i as int].heap_index as int],
    {
        self.mem_properties.memory_heaps[self.mem_properties.memory_types[type_i].heap_index as usize]
    }

    /// Number of memory types of the adapter.
    pub fn memory_type_count(&self) -> (r: usize)
        ensures
            r == self.memory_properties().memory_types@.len(),
    {
        self.mem_properties.memory_types.len()
    }

    /// The largest single allocation the adapter allows.
    pub fn get_max_memory_allocation_size(&self) -> (r: u64)
        ensures
            r == self.max_allocation_size(),
    {
        self.max_memory_allocation_size
    }

    /// Plans one allocation for `reqs` on this adapter (see
    /// `plan_allocation`).
    pub fn plan_allocation(
        &self,
        reqs: &Vec<MemoryRequirements>,
        required: u32,
        optional: u32,
    ) -> (r: Result<AllocationPlan, AllocationError>)
        requires
            self.wf(),
        ensures
            allocation_outcome(
                self.memory_properties(),
                self.max_allocation_size(),
                reqs@,
                required,
                optional,
                r,
            ),
    {
        plan_allocation(&self.mem_properties, self.max_memory_allocation_size, reqs, required, optional)
    }
}

} // verus!
