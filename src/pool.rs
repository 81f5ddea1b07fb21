use std::collections::HashMap;
use vstd::prelude::*;

use crate::engine::{request_accepted, AdvtBlocker, CosmeticResources};
use crate::error::BridgeError;

verus! {

broadcast use vstd::std_specs::hash::group_hash_axioms;

/// Hands out handles: 1, 2, 3, ... never the same one twice.
pub struct IdAllocator {
    next: i64,
}

impl IdAllocator {
    /// The handle that the next allocation returns.
    pub closed spec fn next_id(&self) -> int {
        self.next as int
    }

    pub closed spec fn wf(&self) -> bool {
        self.next >= 1
    }

    pub fn new() -> (r: Self)
        ensures
            r.wf(),
            r.next_id() == 1,
    {
        IdAllocator { next: 1 }
    }

    /// Whether another handle can be handed out without leaving `i64`.
    pub fn has_capacity(&self) -> (r: bool)
        ensures
            r == (self.next_id() < i64::MAX),
    {
        self.next < i64::MAX
    }

    /// Returns a fresh handle, one greater than the last.
    pub fn allocate(&mut self) -> (r: i64)
        requires
            old(self).wf(),
            old(self).next_id() < i64::MAX,
        ensures
            final(self).wf(),
            r == old(self).next_id(),
            final(self).next_id() == old(self).next_id() + 1,
    {
        let id = self.next;
        self.next = self.next + 1;
        id
    }
}

/// The table of live instances, keyed by handle.
pub struct InstancePool<T> {
    instances: HashMap<i64, T>,
    ids: IdAllocator,
}

impl<T> InstancePool<T> {
    /// The handles that have a live instance.
    pub closed spec fn live(&self) -> Set<i64> {
        self.instances@.dom()
    }

    /// The handle that the next creation returns.
    pub closed spec fn next_id(&self) -> int {
        self.ids.next_id()
    }

    /// The instance under a live handle.
    pub closed spec fn instance(&self, handle: i64) -> T {
        self.instances@[handle]
    }

    /// Every live handle was handed out before, and none is handed out again.
    pub closed spec fn wf(&self) -> bool {
        &&& self.ids.wf()
        &&& forall|h: i64| #[trigger] self.instances@.contains_key(h) ==> 1 <= h < self.ids.next_id()
    }

    /// `after` is `self` with a fresh instance `t` registered under `handle`.
    pub open spec fn created(&self, handle: i64, t: T, after: Self) -> bool {
        &&& handle == self.next_id()
        &&& !self.live().contains(handle)
        &&& after.live() == self.live().insert(handle)
        &&& after.instance(handle) == t
        &&& forall|h: i64| #[trigger]
            self.live().contains(h) ==> after.instance(h) == self.instance(h)
        &&& after.next_id() == self.next_id() + 1
    }

    /// `after` is `self` with the entry under `handle`, if any, removed.
    pub open spec fn destroyed(&self, handle: i64, after: Self) -> bool {
        &&& after.live() == self.live().remove(handle)
        &&& forall|h: i64| #[trigger]
            after.live().contains(h) ==> after.instance(h) == self.instance(h)
        &&& after.next_id() == self.next_id()
    }

    /// What destroying `handle` returns.
    pub open spec fn destroy_result(&self, handle: i64) -> Result<bool, BridgeError> {
        if self.live().contains(handle) {
            Ok(true)
        } else {
            Err(BridgeError::InstanceNotFound(handle))
        }
    }

    pub fn new() -> (r: Self)
        ensures
            r.wf(),
            r.live() == Set::<i64>::empty(),
            r.next_id() == 1,
    {
        InstancePool { instances: HashMap::new(), ids: IdAllocator::new() }
    }

    /// Whether another instance can be registered.
    pub fn has_capacity(&self) -> (r: bool)
        ensures
            r == (self.next_id() < i64::MAX),
    {
        self.ids.has_capacity()
    }

    /// Registers a fully built instance under a fresh handle and returns it.
    pub fn insert(&mut self, instance: T) -> (r: i64)
        requires
            old(self).wf(),
            old(self).next_id() < i64::MAX,
        ensures
            final(self).wf(),
            old(self).created(r, instance, *final(self)),
    {
        let id = self.ids.allocate();
        self.instances.insert(id, instance);
        id
    }

    /// Removes and drops the instance under `handle`: `Ok(true)` where one was
    /// live, `InstanceNotFound` where none was.
    pub fn destroy(&mut self, handle: i64) -> (r: Result<bool, BridgeError>)
        requires
            old(self).wf(),
        ensures
            final(self).wf(),
            old(self).destroyed(handle, *final(self)),
            r == old(self).destroy_result(handle),
    {
        match self.instances.remove(&handle) {
            Some(_instance) => Ok(true),
            None => Err(BridgeError::InstanceNotFound(handle)),
        }
    }

    /// The instance under `handle`, or `InstanceNotFound`.
    pub fn get(&self, handle: i64) -> (r: Result<&T, BridgeError>)
        ensures
            self.live().contains(handle) <==> r is Ok,
            r is Ok ==> *r->Ok_0 == self.instance(handle),
            r is Err ==> r->Err_0 == BridgeError::InstanceNotFound(handle),
    {
        match self.instances.get(&handle) {
            Some(t) => Ok(t),
            None => Err(BridgeError::InstanceNotFound(handle)),
        }
    }
}

impl InstancePool<AdvtBlocker> {
    /// Builds an instance from `rules` and registers it under a fresh handle.
    pub fn create(&mut self, rules: Vec<String>) -> (r: i64)
        requires
            old(self).wf(),
            old(self).next_id() < i64::MAX,
        ensures
            final(self).wf(),
            old(self).created(r, final(self).instance(r), *final(self)),
            final(self).instance(r).rules() == rules@,
    {
        let blocker = AdvtBlocker::new(rules);
        self.insert(blocker)
    }

    /// Checks a network request against the instance under `handle`.
    pub fn check_request(&self, handle: i64, url: &str, src_url: &str, req_type: &str) -> (r: Result<
        bool,
        BridgeError,
    >)
        ensures
            !self.live().contains(handle) ==> r == Err::<bool, BridgeError>(
                BridgeError::InstanceNotFound(handle),
            ),
            self.live().contains(handle) ==> (r is Ok <==> request_accepted(
                url@,
                src_url@,
                req_type@,
            )),
            self.live().contains(handle) && r is Ok ==> r->Ok_0 == self.instance(handle).matches(
                url@,
                src_url@,
                req_type@,
            ),
            self.live().contains(handle) && r is Err ==> r->Err_0 is EngineRejected,
    {
        let blocker = self.get(handle)?;
        blocker.check_network_urls(url, src_url, req_type)
    }

    /// The cosmetic resources for `url` from the instance under `handle`.
    pub fn cosmetic_resources(&self, handle: i64, url: &str) -> (r: Result<
        CosmeticResources,
        BridgeError,
    >)
        ensures
            self.live().contains(handle) <==> r is Ok,
            r is Ok ==> self.instance(handle).resources_for(url@, r->Ok_0),
            r is Err ==> r->Err_0 == BridgeError::InstanceNotFound(handle),
    {
        let blocker = self.get(handle)?;
        blocker.url_cosmetic_resources(url)
    }
}

/// A handle just returned by a creation is live, so a lookup through it does
/// not fail for want of an instance.
pub proof fn lemma_created_handle_is_live<T>(
    before: InstancePool<T>,
    handle: i64,
    t: T,
    after: InstancePool<T>,
)
    requires
        before.created(handle, t, after),
    ensures
        after.live().contains(handle),
{
}

/// Destroying a live handle twice: the first call returns `Ok(true)`, the
/// second fails with `InstanceNotFound`.
pub proof fn lemma_destroy_twice<T>(before: InstancePool<T>, handle: i64, after: InstancePool<T>)
    requires
        before.live().contains(handle),
        before.destroyed(handle, after),
    ensures
        before.destroy_result(handle) == Ok::<bool, BridgeError>(true),
        after.destroy_result(handle) == Err::<bool, BridgeError>(
            BridgeError::InstanceNotFound(handle),
        ),
        !after.live().contains(handle),
{
}

/// A handle that no creation has returned yet (any below 1, or from the next
/// one on) has no instance.
pub proof fn lemma_unallocated_handle_is_absent<T>(pool: InstancePool<T>, handle: i64)
    requires
        pool.wf(),
        handle < 1 || handle >= pool.next_id(),
    ensures
        !pool.live().contains(handle),
{
}

/// A create/destroy cycle on one handle loses no other entry: the table holds
/// the same handles, each with the same instance, as before the cycle.
pub proof fn lemma_cycle_keeps_other_entries<T>(
    before: InstancePool<T>,
    handle: i64,
    t: T,
    mid: InstancePool<T>,
    after: InstancePool<T>,
)
    requires
        before.created(handle, t, mid),
        mid.destroyed(handle, after),
    ensures
        after.live() == before.live(),
        forall|h: i64| #[trigger] after.live().contains(h) ==> after.instance(h) == before.instance(h),
        after.next_id() == before.next_id() + 1,
{
    assert(after.live() =~= before.live());
}

/// Handles from a run of creations, each on the pool the previous one left,
/// are strictly increasing, hence all distinct.
pub proof fn lemma_handles_increase<T>(
    pools: Seq<InstancePool<T>>,
    handles: Seq<i64>,
    instances: Seq<T>,
)
    requires
        pools.len() == handles.len() + 1,
        instances.len() == handles.len(),
        forall|k: int|
            0 <= k < handles.len() ==> #[trigger] pools[k].created(
                handles[k],
                instances[k],
                pools[k + 1],
            ),
    ensures
        forall|i: int, j: int| 0 <= i < j < handles.len() ==> handles[i] < handles[j],
{
    assert forall|k: int| 0 <= k < handles.len() implies handles[k] == pools[0].next_id() + k by {
        lemma_handle_offset(pools, handles, instances, k);
    }
}

proof fn lemma_handle_offset<T>(
    pools: Seq<InstancePool<T>>,
    handles: Seq<i64>,
    instances: Seq<T>,
    k: int,
)
    requires
        pools.len() == handles.len() + 1,
        instances.len() == handles.len(),
        forall|k: int|
            0 <= k < handles.len() ==> #[trigger] pools[k].created(
                handles[k],
                instances[k],
                pools[k + 1],
            ),
        0 <= k < handles.len(),
    ensures
        handles[k] == pools[0].next_id() + k,
        pools[k + 1].next_id() == pools[0].next_id() + k + 1,
    decreases k,
{
    assert(pools[k].created(handles[k], instances[k], pools[k + 1]));
    if k > 0 {
        lemma_handle_offset(pools, handles, instances, k - 1);
    }
}

} // verus!
