//! Queue families and the mapping of hardware families onto the roles that
//! the workload needs (graphics, compute, transfer).

use vstd::prelude::*;

verus! {

/// Capability bit of a family that supports graphics operations.
pub const QUEUE_GRAPHICS: u32 = 0x1;

/// Capability bit of a family that supports compute operations.
pub const QUEUE_COMPUTE: u32 = 0x2;

/// Capability bit of a family that supports transfer operations.
pub const QUEUE_TRANSFER: u32 = 0x4;

/// What the hardware reports about one queue family.
#[derive(Clone, Copy, Debug, PartialEq, Eq, Structural)]
pub struct QueueFamilyProperties {
    pub queue_flags: u32,
    pub queue_count: u32,
}

/// A hardware queue group selected for a role.
#[derive(Clone, Copy, Debug, PartialEq, Eq, Structural)]
pub struct QueueFamily {
    pub index: u32,
    pub queue_count: u32,
}

/// The families chosen for each role. `compute` and `transfer` are only set
/// when a family exists that is dedicated to that capability; otherwise the
/// graphics family stands in for them.
#[derive(Debug)]
pub struct QueueFamilies {
    pub graphics: QueueFamily,
    pub compute: Option<QueueFamily>,
    pub transfer: Option<QueueFamily>,
    pub unique_indices: Vec<u32>,
}

pub open spec fn has_flag(flags: u32, flag: u32) -> bool {
    flags & flag == flag
}

pub open spec fn is_graphics_family(p: QueueFamilyProperties) -> bool {
    has_flag(p.queue_flags, QUEUE_GRAPHICS)
}

/// A family that computes without being a graphics family.
pub open spec fn is_dedicated_compute(p: QueueFamilyProperties) -> bool {
    !has_flag(p.queue_flags, QUEUE_GRAPHICS) && has_flag(p.queue_flags, QUEUE_COMPUTE)
}

/// A family that transfers without being a graphics or compute family.
pub open spec fn is_dedicated_transfer(p: QueueFamilyProperties) -> bool {
    !has_flag(p.queue_flags, QUEUE_GRAPHICS) && !has_flag(p.queue_flags, QUEUE_COMPUTE)
        && has_flag(p.queue_flags, QUEUE_TRANSFER)
}

/// The roles a queue family can be chosen for.
pub enum QueueRole {
    Graphics,
    Compute,
    Transfer,
}

/// The family qualifies for the role: any graphics family for graphics, only
/// dedicated families for compute and transfer.
pub open spec fn fits_role(p: QueueFamilyProperties, role: QueueRole) -> bool {
    match role {
        QueueRole::Graphics => is_graphics_family(p),
        QueueRole::Compute => is_dedicated_compute(p),
        QueueRole::Transfer => is_dedicated_transfer(p),
    }
}

/// `i` is the lowest index whose family fits `role`.
pub open spec fn is_first_where(
    props: Seq<QueueFamilyProperties>,
    i: int,
    role: QueueRole,
) -> bool {
    &&& 0 <= i < props.len()
    &&& fits_role(props[i], role)
    &&& forall|j: int| 0 <= j < i ==> !fits_role(#[trigger] props[j], role)
}

pub open spec fn exists_where(
    props: Seq<QueueFamilyProperties>,
    role: QueueRole,
) -> bool {
    exists|j: int| 0 <= j < props.len() && fits_role(#[trigger] props[j], role)
}

/// The role slot holds the first family fitting `role`, or nothing when
/// no family does.
pub open spec fn slot_matches(
    slot: Option<QueueFamily>,
    props: Seq<QueueFamilyProperties>,
    role: QueueRole,
) -> bool {
    match slot {
        Some(f) => is_first_where(props, f.index as int, role) && f.queue_count
            == props[f.index as int].queue_count,
        None => !exists_where(props, role),
    }
}

/// The family indices in use, graphics first, each at most once.
pub open spec fn indices_in_use(
    graphics: QueueFamily,
    compute: Option<QueueFamily>,
    transfer: Option<QueueFamily>,
) -> Seq<u32> {
    let c = match compute {
        Some(f) => seq![f.index],
        None => Seq::<u32>::empty(),
    };
    let t = match transfer {
        Some(f) => seq![f.index],
        None => Seq::<u32>::empty(),
    };
    seq![graphics.index] + c + t
}

/// Number of families in use: the graphics family plus one for each
/// dedicated compute or transfer family that the hardware offers.
pub open spec fn specialized_family_count(props: Seq<QueueFamilyProperties>) -> nat {
    1 + (if exists_where(props, QueueRole::Compute) {
        1nat
    } else {
        0nat
    }) + (if exists_where(props, QueueRole::Transfer) {
        1nat
    } else {
        0nat
    })
}

impl QueueFamilies {
    pub open spec fn wf(&self) -> bool {
        &&& self.unique_indices@ == indices_in_use(self.graphics, self.compute, self.transfer)
        &&& self.compute matches Some(c) ==> c.index != self.graphics.index
        &&& self.transfer matches Some(t) ==> t.index != self.graphics.index
        &&& match (self.compute, self.transfer) {
            (Some(c), Some(t)) => c.index != t.index,
            _ => true,
        }
    }

    /// The families of these roles are exactly what `map_queue_families`
    /// chooses for `props`.
    pub open spec fn chosen_from(&self, props: Seq<QueueFamilyProperties>) -> bool {
        &&& slot_matches(Some(self.graphics), props, QueueRole::Graphics)
        &&& slot_matches(self.compute, props, QueueRole::Compute)
        &&& slot_matches(self.transfer, props, QueueRole::Transfer)
    }

    pub open spec fn compute_index(&self) -> u32 {
        match self.compute {
            Some(f) => f.index,
            None => self.graphics.index,
        }
    }

    pub open spec fn transfer_index(&self) -> u32 {
        match self.transfer {
            Some(f) => f.index,
            None => self.graphics.index,
        }
    }

    /// Index of the family that runs compute work: the dedicated compute
    /// family, or the graphics family when there is none.
    pub fn get_compute_index(&self) -> (r: u32)
        ensures
            r == self.compute_index(),
    {
        match self.compute.as_ref() {
            Some(family) => family.index,
            None => self.graphics.index,
        }
    }

    /// Index of the family that runs transfer work: the dedicated transfer
    /// family, or the graphics family when there is none.
    pub fn get_transfer_index(&self) -> (r: u32)
        ensures
            r == self.transfer_index(),
    {
        match self.transfer.as_ref() {
            Some(family) => family.index,
            None => self.graphics.index,
        }
    }
}

/// Maps the hardware's families onto roles in a single pass: the first
/// graphics family, the first compute family without graphics, and the first
/// transfer family without graphics or compute. Returns `None` when no family
/// supports graphics.
pub fn map_queue_families(props: &Vec<QueueFamilyProperties>) -> (r: Option<QueueFamilies>)
    requires
        props@.len() <= u32::MAX,
    ensures
        r is None <==> !exists_where(props@, QueueRole::Graphics),
        r matches Some(f) ==> f.wf() && f.chosen_from(props@) && f.unique_indices@.len()
            == specialized_family_count(props@),
{
    let mut graphics: Option<QueueFamily> = None;
    let mut compute: Option<QueueFamily> = None;
    let mut transfer: Option<QueueFamily> = None;
    let mut i: usize = 0;
    while i < props.len()
        invariant
            i <= props@.len() <= u32::MAX,
            slot_matches(graphics, props@.subrange(0, i as int), QueueRole::Graphics),
            slot_matches(compute, props@.subrange(0, i as int), QueueRole::Compute),
            slot_matches(transfer, props@.subrange(0, i as int), QueueRole::Transfer),
        decreases props@.len() - i,
    {
        let family = props[i];
        let ghost before = props@.subrange(0, i as int);
        let ghost after = props@.subrange(0, i as int + 1);
        assert(after == before.push(family));
        assert(forall|j: int| 0 <= j < i ==> after[j] == before[j]);
        let slot = QueueFamily { index: i as u32, queue_count: family.queue_count };
        let is_graphics = family.queue_flags & QUEUE_GRAPHICS == QUEUE_GRAPHICS;
        let is_compute = !is_graphics && family.queue_flags & QUEUE_COMPUTE == QUEUE_COMPUTE;
        let is_transfer = !is_graphics && family.queue_flags & QUEUE_COMPUTE != QUEUE_COMPUTE
            && family.queue_flags & QUEUE_TRANSFER == QUEUE_TRANSFER;
        let ghost (g0, c0, t0) = (graphics, compute, transfer);
        if is_graphics && graphics.is_none() {
            graphics = Some(slot);
        }
        if is_compute && compute.is_none() {
            compute = Some(slot);
        }
        if is_transfer && transfer.is_none() {
            transfer = Some(slot);
        }
        proof {
            lemma_slot_extends(g0, graphics, before, family, slot, QueueRole::Graphics);
            lemma_slot_extends(c0, compute, before, family, slot, QueueRole::Compute);
            lemma_slot_extends(t0, transfer, before, family, slot, QueueRole::Transfer);
        }
        i = i + 1;
    }
    assert(props@.subrange(0, props@.len() as int) == props@);
    match graphics {
        None => None,
        Some(g) => {
            let mut unique_indices: Vec<u32> = Vec::new();
            unique_indices.push(g.index);
            if let Some(c) = compute {
                unique_indices.push(c.index);
            }
            if let Some(t) = transfer {
                unique_indices.push(t.index);
            }
            proof {
                assert(unique_indices@ =~= indices_in_use(g, compute, transfer));
            }
            Some(QueueFamilies { graphics: g, compute, transfer, unique_indices })
        },
    }
}

/// Dedicated families are used whenever the hardware has them, and never the
/// graphics family in their place; without them the compute and transfer
/// roles resolve to the graphics family.
pub proof fn lemma_dedicated_families_used(f: QueueFamilies, props: Seq<QueueFamilyProperties>)
    requires
        f.wf(),
        f.chosen_from(props),
    ensures
        exists_where(props, QueueRole::Compute) ==> (f.compute is Some && f.compute_index()
            != f.graphics.index && is_dedicated_compute(props[f.compute_index() as int])),
        exists_where(props, QueueRole::Transfer) ==> (f.transfer is Some && f.transfer_index()
            != f.graphics.index && is_dedicated_transfer(props[f.transfer_index() as int])),
        !exists_where(props, QueueRole::Compute) ==> f.compute_index() == f.graphics.index,
        !exists_where(props, QueueRole::Transfer) ==> f.transfer_index() == f.graphics.index,
        is_graphics_family(props[f.graphics.index as int]),
{
}

proof fn lemma_slot_extends(
    slot: Option<QueueFamily>,
    next: Option<QueueFamily>,
    before: Seq<QueueFamilyProperties>,
    family: QueueFamilyProperties,
    candidate: QueueFamily,
    role: QueueRole,
)
    requires
        slot_matches(slot, before, role),
        candidate.index == before.len(),
        candidate.queue_count == family.queue_count,
        next == (if fits_role(family, role) && slot is None {
            Some(candidate)
        } else {
            slot
        }),
    ensures
        slot_matches(next, before.push(family), role),
{
    let after = before.push(family);
    assert(forall|j: int| 0 <= j < before.len() ==> after[j] == before[j]);
    assert(after[before.len() as int] == family);
    if slot is None && !fits_role(family, role) {
        assert forall|j: int| 0 <= j < after.len() implies !fits_role(#[trigger] after[j], role) by {
            if j < before.len() {
                assert(after[j] == before[j]);
            }
        }
    }
}

} // verus!
