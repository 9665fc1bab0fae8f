//! Allocating one block of memory for a plan and binding every resource of
//! it, as a sequence of decisions: the driver performs each action and
//! reports how it went. If any binding fails, the memory is freed before the
//! run finishes, so no binding into it is left live.

use vstd::prelude::*;
use crate::errors::{DeviceError, RESULT_UNKNOWN};
use crate::memory::AllocationPlan;

verus! {

/// A resource of the plan and where in the memory it goes.
#[derive(Clone, Copy, Debug, PartialEq, Eq, Structural)]
pub struct PlannedBinding {
    pub resource: u64,
    pub is_image: bool,
    pub offset: u64,
}

/// A resource to bind: its handle and whether it is an image or a buffer.
#[derive(Clone, Copy, Debug, PartialEq, Eq, Structural)]
pub struct ResourceRef {
    pub handle: u64,
    pub is_image: bool,
}

#[derive(Clone, Copy, Debug, PartialEq, Eq, Structural)]
pub enum AllocPhase {
    Allocating,
    Binding,
    Releasing,
    Finished,
}

/// What the driver is to do next.
#[derive(Clone, Copy, Debug, PartialEq, Eq, Structural)]
pub enum AllocAction {
    AllocateMemory { type_index: u32, size: u64 },
    Bind { resource: u64, is_image: bool, memory: u64, offset: u64 },
    FreeMemory { memory: u64 },
    /// The run is over: `allocation` holds every resource when `error` is
    /// `None`; otherwise nothing is left allocated.
    Finish { allocation: Option<u64>, error: Option<DeviceError> },
}

/// Where a run stands.
#[derive(Clone, Copy, Debug, PartialEq, Eq, Structural)]
pub struct AllocState {
    pub phase: AllocPhase,
    /// The memory allocated and not freed.
    pub memory: Option<u64>,
    /// How many resources are bound.
    pub bound: usize,
    pub error: Option<DeviceError>,
}

pub open spec fn bind_action(b: PlannedBinding, memory: u64) -> AllocAction {
    AllocAction::Bind { resource: b.resource, is_image: b.is_image, memory, offset: b.offset }
}

/// The next state and action, given how the last action went.
pub open spec fn alloc_step(bindings: Seq<PlannedBinding>, st: AllocState, event: Result<
    u64,
    i32,
>) -> (AllocState, AllocAction) {
    match st.phase {
        AllocPhase::Allocating => match event {
            Ok(m) => if bindings.len() == 0 {
                (
                    AllocState { phase: AllocPhase::Finished, memory: Some(m), ..st },
                    AllocAction::Finish { allocation: Some(m), error: None },
                )
            } else {
                (
                    AllocState {
                        phase: AllocPhase::Binding,
                        memory: Some(m),
                        bound: 0,
                        ..st
                    },
                    bind_action(bindings[0], m),
                )
            },
            Err(code) => {
                let e = Some(DeviceError::from_code_spec(code));
                (
                    AllocState { phase: AllocPhase::Finished, error: e, ..st },
                    AllocAction::Finish { allocation: None, error: e },
                )
            },
        },
        AllocPhase::Binding => match (st.memory, event) {
            (Some(m), Ok(_)) => if st.bound + 1 >= bindings.len() {
                (
                    AllocState {
                        phase: AllocPhase::Finished,
                        bound: (st.bound + 1) as usize,
                        ..st
                    },
                    AllocAction::Finish { allocation: Some(m), error: None },
                )
            } else {
                (
                    AllocState { bound: (st.bound + 1) as usize, ..st },
                    bind_action(bindings[st.bound + 1], m),
                )
            },
            (Some(m), Err(code)) => (
                AllocState {
                    phase: AllocPhase::Releasing,
                    error: Some(DeviceError::from_code_spec(code)),
                    ..st
                },
                AllocAction::FreeMemory { memory: m },
            ),
            (None, _) => {
                let e = Some(DeviceError::from_code_spec(RESULT_UNKNOWN));
                (
                    AllocState { phase: AllocPhase::Finished, error: e, ..st },
                    AllocAction::Finish { allocation: None, error: e },
                )
            },
        },
        AllocPhase::Releasing => (
            AllocState { phase: AllocPhase::Finished, memory: None, ..st },
            AllocAction::Finish { allocation: None, error: st.error },
        ),
        AllocPhase::Finished => (st, AllocAction::Finish { allocation: st.memory, error: st.error }),
    }
}

/// One allocate-and-bind run over a plan.
#[derive(Debug)]
pub struct AllocationRun {
    bindings: Vec<PlannedBinding>,
    state: AllocState,
}

impl AllocationRun {
    pub closed spec fn bindings(&self) -> Seq<PlannedBinding> {
        self.bindings@
    }

    pub closed spec fn state(&self) -> AllocState {
        self.state
    }

    /// Where the run stands.
    pub fn state_now(&self) -> (r: AllocState)
        ensures
            r == self.state(),
    {
        self.state
    }

    /// A run for `plan` binding `resources`, in order, at the plan's
    /// offsets, and its first action. `None` when the plan has not one
    /// offset per resource.
    pub fn start(plan: &AllocationPlan, resources: &Vec<ResourceRef>) -> (r: Option<
        (AllocationRun, AllocAction),
    >)
        ensures
            r is None <==> plan.offsets@.len() != resources@.len(),
            r matches Some((run, action)) ==> {
                &&& run.bindings().len() == resources@.len()
                &&& forall|k: int|
                    0 <= k < resources@.len() ==> #[trigger] run.bindings()[k] == (PlannedBinding {
                        resource: resources@[k].handle,
                        is_image: resources@[k].is_image,
                        offset: plan.offsets@[k],
                    })
                &&& run.state() == (AllocState {
                    phase: AllocPhase::Allocating,
                    memory: None,
                    bound: 0,
                    error: None,
                })
                &&& action == (AllocAction::AllocateMemory {
                    type_index: plan.memory_type_index,
                    size: plan.size,
                })
            },
    {
        if plan.offsets.len() != resources.len() {
            return None;
        }
        let mut bindings: Vec<PlannedBinding> = Vec::new();
        let mut k: usize = 0;
        while k < resources.len()
            invariant
                k <= resources@.len() == plan.offsets@.len(),
                bindings@.len() == k,
                forall|j: int|
                    0 <= j < k ==> #[trigger] bindings@[j] == (PlannedBinding {
                        resource: resources@[j].handle,
                        is_image: resources@[j].is_image,
                        offset: plan.offsets@[j],
                    }),
            decreases resources@.len() - k,
        {
            let r = resources[k];
            bindings.push(PlannedBinding { resource: r.handle, is_image: r.is_image, offset: plan.offsets[k] });
            k = k + 1;
        }
        let state = AllocState { phase: AllocPhase::Allocating, memory: None, bound: 0, error: None };
        Some(
            (
                AllocationRun { bindings, state },
                AllocAction::AllocateMemory { type_index: plan.memory_type_index, size: plan.size },
            ),
        )
    }

    /// Takes how the last action went (the new memory's handle, any value
    /// for a bind or a free, or the raw error code) and returns the next
    /// action.
    pub fn advance(&mut self, event: Result<u64, i32>) -> (r: AllocAction)
        requires
            alloc_inv(old(self).bindings(), old(self).state()),
        ensures
            final(self).bindings() == old(self).bindings(),
            (final(self).state(), r) == alloc_step(old(self).bindings(), old(self).state(), event),
    {
        let st = self.state;
        match st.phase {
            AllocPhase::Allocating => match event {
                Ok(m) => {
                    if self.bindings.len() == 0 {
                        self.state = AllocState { phase: AllocPhase::Finished, memory: Some(m), ..st };
                        AllocAction::Finish { allocation: Some(m), error: None }
                    } else {
                        self.state = AllocState {
                            phase: AllocPhase::Binding,
                            memory: Some(m),
                            bound: 0,
                            ..st
                        };
                        let b = self.bindings[0];
                        AllocAction::Bind { resource: b.resource, is_image: b.is_image, memory: m, offset: b.offset }
                    }
                },
                Err(code) => {
                    let e = Some(DeviceError::from_result_code(code));
                    self.state = AllocState { phase: AllocPhase::Finished, error: e, ..st };
                    AllocAction::Finish { allocation: None, error: e }
                },
            },
            AllocPhase::Binding => match (st.memory, event) {
                (Some(m), Ok(_)) => {
                    if st.bound + 1 >= self.bindings.len() {
                        self.state = AllocState {
                            phase: AllocPhase::Finished,
                            bound: st.bound + 1,
                            ..st
                        };
                        AllocAction::Finish { allocation: Some(m), error: None }
                    } else {
                        self.state = AllocState { bound: st.bound + 1, ..st };
                        let b = self.bindings[st.bound + 1];
                        AllocAction::Bind { resource: b.resource, is_image: b.is_image, memory: m, offset: b.offset }
                    }
                },
                (Some(m), Err(code)) => {
                    self.state = AllocState {
                        phase: AllocPhase::Releasing,
                        error: Some(DeviceError::from_result_code(code)),
                        ..st
                    };
                    AllocAction::FreeMemory { memory: m }
                },
                (None, _) => {
                    let e = Some(DeviceError::from_result_code(RESULT_UNKNOWN));
                    self.state = AllocState { phase: AllocPhase::Finished, error: e, ..st };
                    AllocAction::Finish { allocation: None, error: e }
                },
            },
            AllocPhase::Releasing => {
                self.state = AllocState { phase: AllocPhase::Finished, memory: None, ..st };
                AllocAction::Finish { allocation: None, error: st.error }
            },
            AllocPhase::Finished => AllocAction::Finish { allocation: st.memory, error: st.error },
        }
    }
}

/// The states that a run can reach from `start`.
pub open spec fn alloc_inv(bindings: Seq<PlannedBinding>, st: AllocState) -> bool {
    &&& bindings.len() <= usize::MAX
    &&& match st.phase {
        AllocPhase::Allocating => st.memory is None && st.bound == 0 && st.error is None,
        AllocPhase::Binding => st.memory is Some && st.bound < bindings.len() && st.error is None,
        AllocPhase::Releasing => st.memory is Some && st.error is Some,
        AllocPhase::Finished => (st.error is None ==> st.memory is Some && st.bound
            == bindings.len()) && (st.error is Some ==> st.memory is None),
    }
}

/// Every step keeps a run among the reachable states.
pub proof fn lemma_alloc_step_keeps_inv(
    bindings: Seq<PlannedBinding>,
    st: AllocState,
    event: Result<u64, i32>,
)
    requires
        alloc_inv(bindings, st),
    ensures
        alloc_inv(bindings, alloc_step(bindings, st, event).0),
{
}

/// Binding is all or nothing: a run that finishes without error has bound
/// every resource of the plan into the memory it reports; a run that
/// finishes with an error leaves no memory allocated, freeing it first if a
/// binding failed. The resources are bound in the plan's order, each at its
/// planned offset.
pub proof fn lemma_bind_all_or_nothing(
    bindings: Seq<PlannedBinding>,
    st: AllocState,
    event: Result<u64, i32>,
)
    requires
        alloc_inv(bindings, st),
    ensures
        ({
            let (next, action) = alloc_step(bindings, st, event);
            &&& action matches AllocAction::Finish { allocation, error } ==> (error is None ==> (
            allocation is Some && next.bound == bindings.len())) && (error is Some ==> allocation is None
                && next.memory is None)
            &&& (st.phase == AllocPhase::Binding && event is Err) ==> action
                == (AllocAction::FreeMemory { memory: st.memory->Some_0 })
            &&& action matches AllocAction::Bind { .. } ==> action == bind_action(
                bindings[next.bound as int],
                next.memory->Some_0,
            )
        }),
{
}

} // verus!
