//! The device objects that the core has created and not yet destroyed,
//! with the rules that keep destruction safe: never twice, never while a
//! submission may use them, and a resource before the memory it is bound to.

use vstd::prelude::*;

verus! {

/// The kind of a device object.
#[derive(Clone, Copy, Debug, PartialEq, Eq, Structural)]
pub enum ObjectKind {
    Image,
    Buffer,
    Memory,
    Semaphore,
    Fence,
    CommandPool,
}

/// One live object: its handle, its kind, and for an image or a buffer the
/// memory it is bound to.
#[derive(Clone, Copy, Debug, PartialEq, Eq, Structural)]
pub struct TrackedObject {
    pub handle: u64,
    pub kind: ObjectKind,
    pub bound_to: Option<u64>,
}

/// Why a lifetime step was refused.
#[derive(Clone, Copy, Debug, PartialEq, Eq, Structural)]
pub enum LifetimeError {
    /// A live object already has this handle.
    AlreadyLive,
    /// No live object has this handle: it was never created, or already
    /// destroyed.
    NotLive,
    /// Only an unbound image or buffer can be bound, and only to memory.
    NotBindable,
    /// Memory cannot be freed while a resource is bound to it.
    StillBound,
    /// A submission that may use the objects has not completed.
    InUse,
}

pub open spec fn is_resource(kind: ObjectKind) -> bool {
    kind == ObjectKind::Image || kind == ObjectKind::Buffer
}

pub open spec fn has_handle(s: Seq<TrackedObject>, h: u64) -> bool {
    exists|i: int| 0 <= i < s.len() && (#[trigger] s[i]).handle == h
}

pub open spec fn is_memory_at(s: Seq<TrackedObject>, h: u64) -> bool {
    exists|i: int| 0 <= i < s.len() && (#[trigger] s[i]).handle == h && s[i].kind == ObjectKind::Memory
}

/// Some live object is bound to `memory`.
pub open spec fn has_binding_to(s: Seq<TrackedObject>, memory: u64) -> bool {
    exists|i: int| 0 <= i < s.len() && (#[trigger] s[i]).bound_to == Some(memory)
}

/// The index of the live object with handle `h`.
pub open spec fn position(s: Seq<TrackedObject>, h: u64) -> int {
    choose|i: int| 0 <= i < s.len() && (#[trigger] s[i]).handle == h
}

pub open spec fn objects_wf(s: Seq<TrackedObject>) -> bool {
    &&& forall|i: int, j: int|
        0 <= i < s.len() && 0 <= j < s.len() && i != j ==> (#[trigger] s[i]).handle != (
        #[trigger] s[j]).handle
    &&& forall|i: int|
        0 <= i < s.len() && (#[trigger] s[i]).bound_to is Some ==> is_resource(s[i].kind)
            && is_memory_at(s, s[i].bound_to->Some_0)
}

/// The objects of `s` that are memory (or that are not), the newest first.
pub open spec fn newest_first(s: Seq<TrackedObject>, memory: bool) -> Seq<TrackedObject>
    decreases s.len(),
{
    if s.len() == 0 {
        Seq::<TrackedObject>::empty()
    } else {
        let rest = newest_first(s.drop_first(), memory);
        if (s[0].kind == ObjectKind::Memory) == memory {
            rest.push(s[0])
        } else {
            rest
        }
    }
}

/// The order of destruction: every object that is not memory, newest
/// first, then the memory, newest first.
pub open spec fn teardown_order(s: Seq<TrackedObject>) -> Seq<TrackedObject> {
    newest_first(s, false) + newest_first(s, true)
}

/// The live device objects, in the order of their creation.
#[derive(Debug)]
pub struct ObjectTracker {
    objects: Vec<TrackedObject>,
    in_use: bool,
}

impl ObjectTracker {
    pub closed spec fn live(&self) -> Seq<TrackedObject> {
        self.objects@
    }

    pub closed spec fn busy(&self) -> bool {
        self.in_use
    }

    pub open spec fn wf(&self) -> bool {
        objects_wf(self.live())
    }

    /// A tracker of nothing.
    pub fn new() -> (r: Self)
        ensures
            r.wf(),
            r.live() == Seq::<TrackedObject>::empty(),
            !r.busy(),
    {
        ObjectTracker { objects: Vec::new(), in_use: false }
    }

    fn find(&self, handle: u64) -> (r: Option<usize>)
        ensures
            r matches Some(i) ==> i < self.live().len() && self.live()[i as int].handle == handle,
            r is None <==> !has_handle(self.live(), handle),
    {
        let mut i: usize = 0;
        while i < self.objects.len()
            invariant
                i <= self.objects@.len(),
                forall|j: int| 0 <= j < i ==> (#[trigger] self.objects@[j]).handle != handle,
            decreases self.objects@.len() - i,
        {
            if self.objects[i].handle == handle {
                return Some(i);
            }
            i = i + 1;
        }
        None
    }

    /// The object with this handle is live.
    pub fn is_live(&self, handle: u64) -> (r: bool)
        ensures
            r == has_handle(self.live(), handle),
    {
        self.find(handle).is_some()
    }

    /// Notes a newly created object.
    pub fn created(&mut self, handle: u64, kind: ObjectKind) -> (r: Result<(), LifetimeError>)
        requires
            old(self).wf(),
        ensures
            final(self).wf(),
            final(self).busy() == old(self).busy(),
            has_handle(old(self).live(), handle) ==> r == Err::<(), LifetimeError>(
                LifetimeError::AlreadyLive,
            ) && final(self).live() == old(self).live(),
            !has_handle(old(self).live(), handle) ==> r is Ok && final(self).live() == old(
                self,
            ).live().push(TrackedObject { handle, kind, bound_to: None }),
    {
        if self.find(handle).is_some() {
            return Err(LifetimeError::AlreadyLive);
        }
        let ghost before = self.objects@;
        self.objects.push(TrackedObject { handle, kind, bound_to: None });
        proof {
            let after = self.objects@;
            assert forall|i: int| 0 <= i < after.len() && (#[trigger] after[i]).bound_to is Some
                implies is_resource(after[i].kind) && is_memory_at(after, after[i].bound_to->Some_0) by {
                assert(i < before.len());
                assert(before[i] == after[i]);
                let m = after[i].bound_to->Some_0;
                let j = choose|j: int| 0 <= j < before.len() && (#[trigger] before[j]).handle == m
                    && before[j].kind == ObjectKind::Memory;
                assert(after[j] == before[j]);
            }
        }
        Ok(())
    }

    /// Notes that `resource` was bound to `memory`.
    pub fn bound(&mut self, resource: u64, memory: u64) -> (r: Result<(), LifetimeError>)
        requires
            old(self).wf(),
        ensures
            final(self).wf(),
            final(self).busy() == old(self).busy(),
            r is Err ==> final(self).live() == old(self).live(),
            (!has_handle(old(self).live(), resource) || !has_handle(old(self).live(), memory))
                ==> r == Err::<(), LifetimeError>(LifetimeError::NotLive),
            r is Ok <==> has_handle(old(self).live(), resource) && is_memory_at(
                old(self).live(),
                memory,
            ) && ({
                let o = old(self).live()[position(old(self).live(), resource)];
                is_resource(o.kind) && o.bound_to is None
            }),
            r is Ok ==> final(self).live() == old(self).live().update(
                position(old(self).live(), resource),
                TrackedObject { bound_to: Some(memory), ..old(self).live()[position(old(self).live(), resource)] },
            ),
    {
        let ghost s = self.objects@;
        let ri = match self.find(resource) {
            Some(i) => i,
            None => {
                return Err(LifetimeError::NotLive);
            },
        };
        let mi = match self.find(memory) {
            Some(i) => i,
            None => {
                return Err(LifetimeError::NotLive);
            },
        };
        proof {
            assert(position(s, resource) == ri as int);
            if is_memory_at(s, memory) {
                let j = choose|j: int| 0 <= j < s.len() && (#[trigger] s[j]).handle == memory
                    && s[j].kind == ObjectKind::Memory;
                assert(j == mi as int);
            }
        }
        let object = self.objects[ri];
        let target = self.objects[mi];
        if !(object.kind == ObjectKind::Image || object.kind == ObjectKind::Buffer)
            || object.bound_to.is_some() || target.kind != ObjectKind::Memory {
            return Err(LifetimeError::NotBindable);
        }
        self.objects.set(ri, TrackedObject { bound_to: Some(memory), ..object });
        proof {
            let after = self.objects@;
            assert forall|i: int, j: int|
                0 <= i < after.len() && 0 <= j < after.len() && i != j implies (#[trigger] after[i]).handle
                    != (#[trigger] after[j]).handle by {
                assert(after[i].handle == s[i].handle);
                assert(after[j].handle == s[j].handle);
            }
            assert forall|i: int| 0 <= i < after.len() && (#[trigger] after[i]).bound_to is Some
                implies is_resource(after[i].kind) && is_memory_at(after, after[i].bound_to->Some_0) by {
                if i == ri as int {
                    assert(after[mi as int] == s[mi as int]);
                } else {
                    assert(after[i] == s[i]);
                    let m = s[i].bound_to->Some_0;
                    let j = choose|j: int| 0 <= j < s.len() && (#[trigger] s[j]).handle == m
                        && s[j].kind == ObjectKind::Memory;
                    assert(after[j].handle == m && after[j].kind == ObjectKind::Memory);
                }
            }
        }
        Ok(())
    }

    /// Notes that a submission that may use the objects was queued.
    pub fn mark_in_use(&mut self)
        ensures
            final(self).live() == old(self).live(),
            final(self).busy(),
    {
        self.in_use = true;
    }

    /// Notes that the fence of that submission was seen signaled.
    pub fn mark_idle(&mut self)
        ensures
            final(self).live() == old(self).live(),
            !final(self).busy(),
    {
        self.in_use = false;
    }

    fn binding_exists(&self, memory: u64) -> (r: bool)
        ensures
            r == has_binding_to(self.live(), memory),
    {
        let mut i: usize = 0;
        while i < self.objects.len()
            invariant
                i <= self.objects@.len(),
                forall|j: int| 0 <= j < i ==> (#[trigger] self.objects@[j]).bound_to != Some(memory),
            decreases self.objects@.len() - i,
        {
            if self.objects[i].bound_to == Some(memory) {
                return true;
            }
            i = i + 1;
        }
        false
    }

    /// Notes that the object with this handle is to be destroyed, and
    /// returns its kind. Refused while a submission may use the objects, for
    /// an object that is not live (never created, or destroyed already), and
    /// for memory that a live resource is still bound to.
    pub fn destroy(&mut self, handle: u64) -> (r: Result<ObjectKind, LifetimeError>)
        requires
            old(self).wf(),
        ensures
            final(self).wf(),
            final(self).busy() == old(self).busy(),
            r is Err ==> final(self).live() == old(self).live(),
            old(self).busy() ==> r == Err::<ObjectKind, LifetimeError>(LifetimeError::InUse),
            !old(self).busy() && !has_handle(old(self).live(), handle) ==> r == Err::<
                ObjectKind,
                LifetimeError,
            >(LifetimeError::NotLive),
            !old(self).busy() && is_memory_at(old(self).live(), handle) && has_binding_to(
                old(self).live(),
                handle,
            ) ==> r == Err::<ObjectKind, LifetimeError>(LifetimeError::StillBound),
            r is Ok <==> !old(self).busy() && has_handle(old(self).live(), handle) && !(
            is_memory_at(old(self).live(), handle) && has_binding_to(old(self).live(), handle)),
            r matches Ok(kind) ==> {
                let i = position(old(self).live(), handle);
                &&& kind == old(self).live()[i].kind
                &&& final(self).live() == old(self).live().remove(i)
            },
    {
        if self.in_use {
            return Err(LifetimeError::InUse);
        }
        let ghost s = self.objects@;
        let i = match self.find(handle) {
            Some(i) => i,
            None => {
                return Err(LifetimeError::NotLive);
            },
        };
        proof {
            assert(position(s, handle) == i as int);
        }
        let object = self.objects[i];
        if object.kind == ObjectKind::Memory && self.binding_exists(handle) {
            return Err(LifetimeError::StillBound);
        }
        proof {
            if is_memory_at(s, handle) {
                let j = choose|j: int| 0 <= j < s.len() && (#[trigger] s[j]).handle == handle
                    && s[j].kind == ObjectKind::Memory;
                assert(j == i as int);
            }
        }
        let removed = self.objects.remove(i);
        proof {
            let after = self.objects@;
            assert(after == s.remove(i as int));
            assert forall|a: int, b: int|
                0 <= a < after.len() && 0 <= b < after.len() && a != b implies (#[trigger] after[a]).handle
                    != (#[trigger] after[b]).handle by {
                let sa = if a < i { a } else { a + 1 };
                let sb = if b < i { b } else { b + 1 };
                assert(after[a] == s[sa]);
                assert(after[b] == s[sb]);
            }
            assert forall|a: int| 0 <= a < after.len() && (#[trigger] after[a]).bound_to is Some
                implies is_resource(after[a].kind) && is_memory_at(after, after[a].bound_to->Some_0) by {
                let sa = if a < i { a } else { a + 1 };
                assert(after[a] == s[sa]);
                let m = s[sa].bound_to->Some_0;
                let j = choose|j: int| 0 <= j < s.len() && (#[trigger] s[j]).handle == m
                    && s[j].kind == ObjectKind::Memory;
                if j == i as int {
                    assert(has_binding_to(s, handle));
                }
                let aj = if j < i { j } else { j - 1 };
                assert(after[aj] == s[j]);
            }
        }
        Ok(removed.kind)
    }

    /// Ends the tracking: returns every live object in the order in which
    /// they are to be destroyed and forgets them all. Refused while a
    /// submission may use them.
    pub fn teardown(&mut self) -> (r: Result<Vec<TrackedObject>, LifetimeError>)
        requires
            old(self).wf(),
        ensures
            final(self).wf(),
            final(self).busy() == old(self).busy(),
            old(self).busy() ==> r is Err && final(self).live() == old(self).live(),
            !old(self).busy() ==> (r matches Ok(order) && order@ == teardown_order(old(self).live())
                && final(self).live() == Seq::<TrackedObject>::empty()),
            r is Err ==> r == Err::<Vec<TrackedObject>, LifetimeError>(LifetimeError::InUse),
    {
        if self.in_use {
            return Err(LifetimeError::InUse);
        }
        let mut order: Vec<TrackedObject> = Vec::new();
        collect_newest_first(&self.objects, false, &mut order);
        collect_newest_first(&self.objects, true, &mut order);
        self.objects = Vec::new();
        Ok(order)
    }

    /// The objects may be destroyed: no submission may use them.
    pub fn is_busy(&self) -> (r: bool)
        ensures
            r == self.busy(),
    {
        self.in_use
    }
}

/// Appends the memory objects (or the others), the newest first.
fn collect_newest_first(objects: &Vec<TrackedObject>, memory: bool, out: &mut Vec<TrackedObject>)
    ensures
        final(out)@ == old(out)@ + newest_first(objects@, memory),
{
    let ghost start = out@;
    let n = objects.len();
    let mut k: usize = n;
    assert(objects@.subrange(n as int, n as int) =~= Seq::<TrackedObject>::empty());
    assert(start + Seq::<TrackedObject>::empty() =~= start);
    while k > 0
        invariant
            k <= n == objects@.len(),
            out@ == start + newest_first(objects@.subrange(k as int, n as int), memory),
        decreases k,
    {
        let object = objects[k - 1];
        let ghost tail = objects@.subrange(k as int, n as int);
        let ghost longer = objects@.subrange(k - 1, n as int);
        assert(longer.drop_first() =~= tail);
        assert(longer[0] == object);
        if (object.kind == ObjectKind::Memory) == memory {
            out.push(object);
            assert(out@ =~= start + newest_first(longer, memory));
        }
        k = k - 1;
    }
    assert(objects@.subrange(0, n as int) =~= objects@);
}

proof fn lemma_newest_first_members(s: Seq<TrackedObject>, memory: bool)
    ensures
        forall|k: int|
            0 <= k < newest_first(s, memory).len() ==> s.contains(
                #[trigger] newest_first(s, memory)[k],
            ) && (newest_first(s, memory)[k].kind == ObjectKind::Memory) == memory,
        forall|i: int|
            0 <= i < s.len() && ((#[trigger] s[i]).kind == ObjectKind::Memory) == memory
                ==> newest_first(s, memory).contains(s[i]),
    decreases s.len(),
{
    if s.len() > 0 {
        let t = s.drop_first();
        lemma_newest_first_members(t, memory);
        let nf = newest_first(s, memory);
        let rest = newest_first(t, memory);
        assert forall|k: int| 0 <= k < nf.len() implies s.contains(#[trigger] nf[k]) && (
        nf[k].kind == ObjectKind::Memory) == memory by {
            if k < rest.len() {
                assert(nf[k] == rest[k]);
                assert(t.contains(rest[k]));
                let j = choose|j: int| 0 <= j < t.len() && t[j] == rest[k];
                assert(s[j + 1] == t[j]);
            } else {
                assert(nf[k] == s[0]);
            }
        }
        assert forall|i: int|
            0 <= i < s.len() && ((#[trigger] s[i]).kind == ObjectKind::Memory) == memory implies nf.contains(
                s[i],
            ) by {
            if i == 0 {
                assert(nf[nf.len() - 1] == s[0]);
            } else {
                assert(t[i - 1] == s[i]);
                let k = choose|k: int| 0 <= k < rest.len() && rest[k] == t[i - 1];
                assert(nf[k] == rest[k]);
            }
        }
    }
}

proof fn lemma_newest_first_lengths(s: Seq<TrackedObject>)
    ensures
        newest_first(s, false).len() + newest_first(s, true).len() == s.len(),
    decreases s.len(),
{
    if s.len() > 0 {
        lemma_newest_first_lengths(s.drop_first());
    }
}

/// Tearing down destroys every live object exactly once, and every image or
/// buffer before the memory it is bound to.
pub proof fn lemma_teardown_order_safe(s: Seq<TrackedObject>)
    requires
        objects_wf(s),
    ensures
        teardown_order(s).len() == s.len(),
        forall|i: int| 0 <= i < s.len() ==> teardown_order(s).contains(#[trigger] s[i]),
        forall|k: int| 0 <= k < teardown_order(s).len() ==> s.contains(#[trigger] teardown_order(s)[k]),
        forall|i: int, p: int, q: int|
            #![trigger s[i], teardown_order(s)[p], teardown_order(s)[q]]
            0 <= i < s.len() && 0 <= p < teardown_order(s).len() && 0 <= q < teardown_order(
                s,
            ).len() && teardown_order(s)[p].handle == s[i].handle && s[i].bound_to == Some(
                teardown_order(s)[q].handle,
            ) ==> p < q,
{
    let a = newest_first(s, false);
    let b = newest_first(s, true);
    let order = teardown_order(s);
    lemma_newest_first_lengths(s);
    lemma_newest_first_members(s, false);
    lemma_newest_first_members(s, true);
    assert forall|i: int| 0 <= i < s.len() implies order.contains(#[trigger] s[i]) by {
        if s[i].kind == ObjectKind::Memory {
            let k = choose|k: int| 0 <= k < b.len() && b[k] == s[i];
            assert(order[a.len() + k] == b[k]);
        } else {
            let k = choose|k: int| 0 <= k < a.len() && a[k] == s[i];
            assert(order[k] == a[k]);
        }
    }
    assert forall|k: int| 0 <= k < order.len() implies s.contains(#[trigger] order[k]) by {
        if k < a.len() {
            assert(order[k] == a[k]);
        } else {
            assert(order[k] == b[k - a.len()]);
        }
    }
    assert forall|i: int, p: int, q: int|
        #![trigger s[i], order[p], order[q]]
        0 <= i < s.len() && 0 <= p < order.len() && 0 <= q < order.len() && order[p].handle
            == s[i].handle && s[i].bound_to == Some(order[q].handle) implies p < q by {
        let m = order[q].handle;
        let mj = choose|j: int| 0 <= j < s.len() && (#[trigger] s[j]).handle == m && s[j].kind
            == ObjectKind::Memory;
        if p >= a.len() {
            let k = p - a.len();
            assert(order[p] == b[k]);
            assert(s.contains(b[k]));
            let j = choose|j: int| 0 <= j < s.len() && s[j] == b[k];
            assert(s[j].handle == s[i].handle);
            assert(j == i);
        }
        if q < a.len() {
            assert(order[q] == a[q]);
            assert(s.contains(a[q]));
            let j = choose|j: int| 0 <= j < s.len() && s[j] == a[q];
            assert(s[j].handle == s[mj].handle);
            assert(j == mj);
        }
    }
}

} // verus!
