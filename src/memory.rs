//! Memory types and heaps of an adapter, memory-type selection with an
//! optional upgrade, and the layout of one allocation shared by several
//! resources.

use vstd::prelude::*;
use crate::errors::AllocationError;
use crate::queue::has_flag;

verus! {

/// Memory that is fastest for the device to access.
pub const MEMORY_DEVICE_LOCAL: u32 = 0x1;

/// Memory that the host can map.
pub const MEMORY_HOST_VISIBLE: u32 = 0x2;

/// Host writes and device writes are visible without explicit flushes.
pub const MEMORY_HOST_COHERENT: u32 = 0x4;

/// Host reads of this memory are cached.
pub const MEMORY_HOST_CACHED: u32 = 0x8;

/// The most memory types an adapter can enumerate.
pub const MAX_MEMORY_TYPES: usize = 32;

/// One enumerated memory type: its property flags and the heap it lives in.
#[derive(Clone, Copy, Debug, PartialEq, Eq, Structural)]
pub struct MemoryType {
    pub property_flags: u32,
    pub heap_index: u32,
}

/// One memory heap: its size in bytes and its flags.
#[derive(Clone, Copy, Debug, PartialEq, Eq, Structural)]
pub struct MemoryHeap {
    pub size: u64,
    pub flags: u32,
}

/// The memory types and heaps that an adapter enumerates.
#[derive(Debug)]
pub struct MemoryProperties {
    pub memory_types: Vec<MemoryType>,
    pub memory_heaps: Vec<MemoryHeap>,
}

/// What the hardware asks of the memory that backs one resource.
#[derive(Clone, Copy, Debug, PartialEq, Eq, Structural)]
pub struct MemoryRequirements {
    pub size: u64,
    pub alignment: u64,
    pub memory_type_bits: u32,
}

/// Bit `i` of `bits` is set.
pub open spec fn type_allowed(bits: u32, i: int) -> bool {
    0 <= i < 32 && bits & (1u32 << (i as u32)) != 0
}

impl MemoryProperties {
    pub open spec fn wf(&self) -> bool {
        &&& self.memory_types@.len() <= MAX_MEMORY_TYPES
        &&& forall|i: int|
            0 <= i < self.memory_types@.len() ==> (#[trigger] self.memory_types@[i]).heap_index
                < self.memory_heaps@.len()
    }

    /// Memory type `i` is allowed by `bits` and has every flag of `flags`.
    pub open spec fn suitable(&self, bits: u32, flags: u32, i: int) -> bool {
        &&& 0 <= i < self.memory_types@.len()
        &&& type_allowed(bits, i)
        &&& has_flag(self.memory_types@[i].property_flags, flags)
    }

    pub open spec fn exists_suitable(&self, bits: u32, flags: u32) -> bool {
        exists|i: int| #[trigger] self.suitable(bits, flags, i)
    }

    /// `i` is the lowest-indexed suitable memory type.
    pub open spec fn lowest_suitable(&self, bits: u32, flags: u32, i: int) -> bool {
        &&& self.suitable(bits, flags, i)
        &&& forall|j: int| 0 <= j < i ==> !#[trigger] self.suitable(bits, flags, j)
    }

    /// The lowest-indexed memory type allowed by `bits` whose flags contain
    /// `flags`.
    pub fn find_memory_type(&self, bits: u32, flags: u32) -> (r: Result<u32, ()>)
        requires
            self.wf(),
        ensures
            r matches Ok(i) ==> self.lowest_suitable(bits, flags, i as int),
            r is Err <==> !self.exists_suitable(bits, flags),
    {
        let mut i: usize = 0;
        while i < self.memory_types.len()
            invariant
                i <= self.memory_types@.len() <= MAX_MEMORY_TYPES,
                forall|j: int| 0 <= j < i ==> !#[trigger] self.suitable(bits, flags, j),
            decreases self.memory_types@.len() - i,
        {
            let allowed = bits & (1u32 << (i as u32)) != 0;
            let memory_type = self.memory_types[i];
            if allowed && memory_type.property_flags & flags == flags {
                assert(self.suitable(bits, flags, i as int));
                return Ok(i as u32);
            }
            i = i + 1;
        }
        Err(())
    }

    /// Looks for a memory type with `required | optional` first and falls
    /// back to `required` alone when none has the optional flags too.
    pub fn find_optimal_memory_type(&self, bits: u32, required: u32, optional: u32) -> (r: Result<
        u32,
        (),
    >)
        requires
            self.wf(),
        ensures
            self.exists_suitable(bits, required | optional) ==> (r matches Ok(i)
                && self.lowest_suitable(bits, required | optional, i as int)),
            !self.exists_suitable(bits, required | optional) ==> (r matches Ok(i)
                ==> self.lowest_suitable(bits, required, i as int)),
            r matches Ok(i) ==> self.suitable(bits, required, i as int),
            r is Err <==> !self.exists_suitable(bits, required),
    {
        match self.find_memory_type(bits, required | optional) {
            Ok(i) => {
                proof {
                    lemma_flags_weaken(self.memory_types@[i as int].property_flags, required, optional);
                }
                Ok(i)
            },
            Err(()) => {
                self.find_memory_type(bits, required)
            },
        }
    }
}

/// A memory type with `required | optional` has every flag of `required`
/// and every flag of `optional`.
pub proof fn lemma_flags_weaken(f: u32, required: u32, optional: u32)
    ensures
        has_flag(f, required | optional) ==> has_flag(f, required),
        has_flag(f, required | optional) ==> has_flag(f, optional),
{
    assert(f & (required | optional) == (required | optional) ==> f & required == required)
        by (bit_vector);
    assert(f & (required | optional) == (required | optional) ==> f & optional == optional)
        by (bit_vector);
}

/// `x` rounded up to the next multiple of `alignment`; an alignment of 0 or
/// 1 asks for nothing.
pub open spec fn align_up(x: int, alignment: int) -> int {
    if alignment <= 1 || x % alignment == 0 {
        x
    } else {
        x + (alignment - x % alignment)
    }
}

/// Where the first `n` resources end when each is placed at the first
/// offset after its predecessor that respects its alignment.
pub open spec fn layout_end(reqs: Seq<MemoryRequirements>, n: nat) -> int
    decreases n,
{
    if n == 0 || n > reqs.len() {
        0
    } else {
        align_up(layout_end(reqs, (n - 1) as nat), reqs[n - 1].alignment as int) + reqs[n
            - 1].size
    }
}

/// Offset of resource `k` inside the shared allocation.
pub open spec fn layout_offset(reqs: Seq<MemoryRequirements>, k: int) -> int {
    align_up(layout_end(reqs, k as nat), reqs[k].alignment as int)
}

/// The memory types that every resource accepts.
pub open spec fn combined_type_bits(reqs: Seq<MemoryRequirements>) -> u32
    decreases reqs.len(),
{
    if reqs.len() == 0 {
        0xffff_ffffu32
    } else {
        combined_type_bits(reqs.drop_last()) & reqs.last().memory_type_bits
    }
}

/// One allocation shared by several resources: its memory type, its size,
/// and the offset at which each resource is bound.
#[derive(Debug)]
pub struct AllocationPlan {
    pub memory_type_index: u32,
    pub size: u64,
    pub offsets: Vec<u64>,
}

proof fn lemma_align_up_bounds(x: int, a: int)
    requires
        x >= 0,
    ensures
        x <= align_up(x, a),
{
    if a > 1 {
        assert(0 <= x % a < a) by (nonlinear_arith)
            requires
                a > 1,
        ;
    }
}

proof fn lemma_layout_nonneg(reqs: Seq<MemoryRequirements>, n: nat)
    ensures
        0 <= layout_end(reqs, n),
    decreases n,
{
    if n > 0 && n <= reqs.len() {
        lemma_layout_nonneg(reqs, (n - 1) as nat);
        lemma_align_up_bounds(layout_end(reqs, (n - 1) as nat), reqs[n - 1].alignment as int);
    }
}

proof fn lemma_layout_monotone(reqs: Seq<MemoryRequirements>, m: nat, n: nat)
    requires
        m <= n <= reqs.len(),
    ensures
        0 <= layout_end(reqs, m) <= layout_end(reqs, n),
    decreases n - m,
{
    lemma_layout_nonneg(reqs, m);
    if m < n {
        lemma_layout_monotone(reqs, m, (n - 1) as nat);
        lemma_layout_nonneg(reqs, (n - 1) as nat);
        lemma_align_up_bounds(layout_end(reqs, (n - 1) as nat), reqs[n - 1].alignment as int);
    }
}

/// Rounds `x` up to a multiple of `alignment`, or `None` when that does not
/// fit in 64 bits.
fn checked_align_up(x: u64, alignment: u64) -> (r: Option<u64>)
    ensures
        r matches Some(v) ==> v == align_up(x as int, alignment as int),
        r is None ==> align_up(x as int, alignment as int) > u64::MAX,
{
    if alignment <= 1 {
        return Some(x);
    }
    let rem = x % alignment;
    if rem == 0 {
        Some(x)
    } else {
        x.checked_add(alignment - rem)
    }
}

/// What `plan_allocation` returns for these inputs.
pub open spec fn allocation_outcome(
    memory: MemoryProperties,
    max_allocation_size: u64,
    reqs: Seq<MemoryRequirements>,
    required: u32,
    optional: u32,
    r: Result<AllocationPlan, AllocationError>,
) -> bool {
    let bits = combined_type_bits(reqs);
    &&& r == Err::<AllocationPlan, AllocationError>(AllocationError::NoCompatibleMemoryType)
        <==> !memory.exists_suitable(bits, required)
    &&& r == Err::<AllocationPlan, AllocationError>(AllocationError::TooLarge) <==> (
    memory.exists_suitable(bits, required) && layout_end(reqs, reqs.len())
        > max_allocation_size)
    &&& r is Ok <==> memory.exists_suitable(bits, required) && layout_end(
        reqs,
        reqs.len(),
    ) <= max_allocation_size
    &&& r matches Ok(plan) ==> {
        &&& memory.exists_suitable(bits, required | optional) ==> memory.lowest_suitable(
            bits,
            required | optional,
            plan.memory_type_index as int,
        )
        &&& !memory.exists_suitable(bits, required | optional)
            ==> memory.lowest_suitable(bits, required, plan.memory_type_index as int)
        &&& plan.size == layout_end(reqs, reqs.len())
        &&& plan.offsets@.len() == reqs.len()
        &&& forall|k: int|
            0 <= k < reqs.len() ==> #[trigger] plan.offsets@[k] == layout_offset(
                reqs,
                k,
            )
    }
}

/// Lays out `reqs` one after another in a single allocation, each at an
/// offset that respects its alignment, and picks the lowest memory type that
/// all of them accept with `required | optional`, or with `required` alone
/// when no such type exists.
pub fn plan_allocation(
    memory: &MemoryProperties,
    max_allocation_size: u64,
    reqs: &Vec<MemoryRequirements>,
    required: u32,
    optional: u32,
) -> (r: Result<AllocationPlan, AllocationError>)
    requires
        memory.wf(),
    ensures
        allocation_outcome(*memory, max_allocation_size, reqs@, required, optional, r),
{
    let mut bits: u32 = 0xffff_ffff;
    let mut k: usize = 0;
    while k < reqs.len()
        invariant
            k <= reqs@.len(),
            bits == combined_type_bits(reqs@.subrange(0, k as int)),
        decreases reqs@.len() - k,
    {
        proof {
            let next = reqs@.subrange(0, k as int + 1);
            assert(next.drop_last() == reqs@.subrange(0, k as int));
        }
        bits = bits & reqs[k].memory_type_bits;
        k = k + 1;
    }
    assert(reqs@.subrange(0, reqs@.len() as int) == reqs@);
    let memory_type_index = match memory.find_optimal_memory_type(bits, required, optional) {
        Ok(i) => i,
        Err(()) => {
            return Err(AllocationError::NoCompatibleMemoryType);
        },
    };
    assert(memory.suitable(bits, required, memory_type_index as int));
    let mut offsets: Vec<u64> = Vec::new();
    let mut end: u64 = 0;
    let mut k: usize = 0;
    while k < reqs.len()
        invariant
            k <= reqs@.len(),
            end == layout_end(reqs@, k as nat),
            end <= max_allocation_size,
            bits == combined_type_bits(reqs@),
            memory.suitable(bits, required, memory_type_index as int),
            offsets@.len() == k,
            forall|j: int| 0 <= j < k ==> #[trigger] offsets@[j] == layout_offset(reqs@, j),
        decreases reqs@.len() - k,
    {
        let req = reqs[k];
        proof {
            lemma_layout_monotone(reqs@, (k + 1) as nat, reqs@.len());
            lemma_align_up_bounds(end as int, req.alignment as int);
            assert(layout_end(reqs@, (k + 1) as nat) == align_up(end as int, req.alignment as int)
                + req.size);
        }
        let offset = match checked_align_up(end, req.alignment) {
            Some(o) => o,
            None => {
                return Err(AllocationError::TooLarge);
            },
        };
        let next = match offset.checked_add(req.size) {
            Some(n) => n,
            None => {
                return Err(AllocationError::TooLarge);
            },
        };
        if next > max_allocation_size {
            return Err(AllocationError::TooLarge);
        }
        offsets.push(offset);
        end = next;
        k = k + 1;
    }
    Ok(AllocationPlan { memory_type_index, size: end, offsets })
}

/// Allocation never settles for a memory type without the required
/// properties: when some type that every resource accepts has them, and the
/// resources fit in one allocation, the plan succeeds with such a type, and
/// with the optional properties too whenever some accepted type has both;
/// when no accepted type has the required properties, the plan fails with
/// `NoCompatibleMemoryType`.
pub proof fn lemma_allocation_honours_properties(
    memory: MemoryProperties,
    max_allocation_size: u64,
    reqs: Seq<MemoryRequirements>,
    required: u32,
    optional: u32,
    r: Result<AllocationPlan, AllocationError>,
)
    requires
        memory.wf(),
        allocation_outcome(memory, max_allocation_size, reqs, required, optional, r),
    ensures
        ({
            let bits = combined_type_bits(reqs);
            &&& memory.exists_suitable(bits, required) && layout_end(reqs, reqs.len())
                <= max_allocation_size ==> (r matches Ok(plan) && has_flag(
                memory.memory_types@[plan.memory_type_index as int].property_flags,
                required,
            ) && type_allowed(bits, plan.memory_type_index as int))
            &&& memory.exists_suitable(bits, required | optional) && layout_end(reqs, reqs.len())
                <= max_allocation_size ==> (r matches Ok(plan) && has_flag(
                memory.memory_types@[plan.memory_type_index as int].property_flags,
                required,
            ) && has_flag(
                memory.memory_types@[plan.memory_type_index as int].property_flags,
                optional,
            ))
            &&& !memory.exists_suitable(bits, required) ==> r == Err::<
                AllocationPlan,
                AllocationError,
            >(AllocationError::NoCompatibleMemoryType)
        }),
{
    let bits = combined_type_bits(reqs);
    if memory.exists_suitable(bits, required | optional) {
        let j = choose|j: int| memory.suitable(bits, required | optional, j);
        lemma_flags_weaken(memory.memory_types@[j].property_flags, required, optional);
        assert(memory.suitable(bits, required, j));
    }
    if let Ok(plan) = r {
        let i = plan.memory_type_index as int;
        lemma_flags_weaken(memory.memory_types@[i].property_flags, required, optional);
        if memory.exists_suitable(bits, required | optional) {
            assert(memory.suitable(bits, required | optional, i));
        } else {
            assert(memory.suitable(bits, required, i));
        }
        assert(memory.suitable(bits, required, i));
    }
}

} // verus!
