//! The evaluation-context registry: the mapping from a running guest
//! instance to the worker that owns it and the evaluation context its host
//! functions consult.
//!
//! An entry is inserted exactly once, when a host-call-dialect evaluator is
//! built, and removed exactly once, when that evaluator is torn down. A
//! lookup between those two points yields the registered context; a lookup
//! before insertion or after removal fails with a not-found condition, never
//! with stale data. The embedder shares one registry between its workers
//! behind whatever synchronization it uses; every operation here is a plain
//! sequential transition with an exact contract.

use vstd::prelude::*;

use crate::errors::RegistryError;
use crate::evaluation_context::EvaluationContext;

verus! {

/// One registered instance: its handle, the worker that owns it, and its
/// evaluation context.
#[derive(Debug)]
pub struct RegistryEntry {
    pub instance_handle: u64,
    pub worker_id: u64,
    pub context: EvaluationContext,
}

/// The registry itself: entries are stored in insertion order and mirrored,
/// for specification purposes, by a map keyed by instance handle.
pub struct EvaluationContextRegistry {
    entries: Vec<RegistryEntry>,
    table: Ghost<Map<u64, RegistryEntry>>,
}

impl View for EvaluationContextRegistry {
    type V = Map<u64, RegistryEntry>;

    closed spec fn view(&self) -> Map<u64, RegistryEntry> {
        self.table@
    }
}

impl EvaluationContextRegistry {
    /// The stored entries and the specification map agree: every entry is
    /// in the map under its handle, every mapped handle is backed by an
    /// entry, and no handle is registered twice.
    pub closed spec fn wf(&self) -> bool {
        &&& forall|i: int|
            0 <= i < self.entries@.len() ==> {
                let e = #[trigger] self.entries@[i];
                self.table@.contains_key(e.instance_handle) && self.table@[e.instance_handle] == e
            }
        &&& forall|h: u64| #[trigger]
            self.table@.contains_key(h) ==> exists|i: int|
                0 <= i < self.entries@.len() && (#[trigger] self.entries@[i]).instance_handle == h
        &&& forall|i: int, j: int|
            0 <= i < j < self.entries@.len() ==> (#[trigger] self.entries@[i]).instance_handle != (
            #[trigger] self.entries@[j]).instance_handle
    }

    /// An empty registry.
    pub fn new() -> (r: Self)
        ensures
            r.wf(),
            r@ == Map::<u64, RegistryEntry>::empty(),
    {
        EvaluationContextRegistry { entries: Vec::new(), table: Ghost(Map::empty()) }
    }

    /// Whether an entry is registered under `instance_handle`.
    pub fn contains_handle(&self, instance_handle: u64) -> (r: bool)
        requires
            self.wf(),
        ensures
            r == self@.contains_key(instance_handle),
    {
        let n = self.entries.len();
        let mut i: usize = 0;
        while i < n
            invariant
                self.wf(),
                n == self.entries@.len(),
                0 <= i <= n,
                forall|k: int|
                    0 <= k < i ==> (#[trigger] self.entries@[k]).instance_handle
                        != instance_handle,
            decreases n - i,
        {
            if self.entries[i].instance_handle == instance_handle {
                return true;
            }
            i += 1;
        }
        proof {
            if self@.contains_key(instance_handle) {
                let k = choose|k: int|
                    0 <= k < self.entries@.len() && (#[trigger] self.entries@[k]).instance_handle
                        == instance_handle;
                assert(self.entries@[k].instance_handle == instance_handle);
            }
        }
        false
    }

    /// Inserts an entry for a freshly created instance. Instance handles
    /// are assumed globally unique, so an already-present handle is a
    /// broken embedder or engine: the registry refuses it and stays
    /// unchanged.
    pub fn register(
        &mut self,
        instance_handle: u64,
        worker_id: u64,
        context: EvaluationContext,
    ) -> (r: Result<(), RegistryError>)
        requires
            old(self).wf(),
        ensures
            final(self).wf(),
            old(self)@.contains_key(instance_handle) ==> r == Err::<(), RegistryError>(
                RegistryError::DuplicateInstance,
            ) && final(self)@ == old(self)@,
            !old(self)@.contains_key(instance_handle) ==> r == Ok::<(), RegistryError>(())
                && final(self)@ == old(self)@.insert(
                instance_handle,
                (RegistryEntry { instance_handle, worker_id, context }),
            ),
    {
        if self.contains_handle(instance_handle) {
            return Err(RegistryError::DuplicateInstance);
        }
        let entry = RegistryEntry { instance_handle, worker_id, context };
        let ghost ge = entry;
        let ghost old_entries = self.entries@;
        let ghost old_table = self.table@;
        self.entries.push(entry);
        proof {
            self.table@ = old_table.insert(instance_handle, ge);
        }
        proof {
            assert forall|i: int| 0 <= i < self.entries@.len() implies {
                let e = #[trigger] self.entries@[i];
                self.table@.contains_key(e.instance_handle) && self.table@[e.instance_handle] == e
            } by {
                if i < old_entries.len() {
                    assert(self.entries@[i] == old_entries[i]);
                    assert(old_entries[i].instance_handle != instance_handle);
                } else {
                    assert(self.entries@[i] == ge);
                }
            }
            assert forall|h: u64| #[trigger] self.table@.contains_key(h) implies exists|i: int|
                0 <= i < self.entries@.len() && (#[trigger] self.entries@[i]).instance_handle
                    == h by {
                if h == instance_handle {
                    assert(self.entries@[old_entries.len() as int].instance_handle == h);
                } else {
                    let k = choose|k: int|
                        0 <= k < old_entries.len() && (#[trigger] old_entries[k]).instance_handle
                            == h;
                    assert(self.entries@[k].instance_handle == h);
                }
            }
        }
        Ok(())
    }

    /// The worker that owns the instance registered under
    /// `instance_handle`, or not-found if no such instance is registered.
    pub fn lookup_worker(&self, instance_handle: u64) -> (r: Result<u64, RegistryError>)
        requires
            self.wf(),
        ensures
            self@.contains_key(instance_handle) ==> r == Ok::<u64, RegistryError>(
                self@[instance_handle].worker_id,
            ),
            !self@.contains_key(instance_handle) ==> r == Err::<u64, RegistryError>(
                RegistryError::NotFound,
            ),
    {
        let n = self.entries.len();
        let mut i: usize = 0;
        while i < n
            invariant
                self.wf(),
                n == self.entries@.len(),
                0 <= i <= n,
                forall|k: int|
                    0 <= k < i ==> (#[trigger] self.entries@[k]).instance_handle
                        != instance_handle,
            decreases n - i,
        {
            if self.entries[i].instance_handle == instance_handle {
                return Ok(self.entries[i].worker_id);
            }
            i += 1;
        }
        proof {
            if self@.contains_key(instance_handle) {
                let k = choose|k: int|
                    0 <= k < self.entries@.len() && (#[trigger] self.entries@[k]).instance_handle
                        == instance_handle;
                assert(self.entries@[k].instance_handle == instance_handle);
            }
        }
        Err(RegistryError::NotFound)
    }

    /// The evaluation context registered under `instance_handle`, or
    /// not-found if no such instance is registered. A host-function
    /// dispatcher propagates the failure to the guest as an unavailable
    /// capability rather than crashing the host.
    pub fn lookup_context(&self, instance_handle: u64) -> (r: Result<
        &EvaluationContext,
        RegistryError,
    >)
        requires
            self.wf(),
        ensures
            self@.contains_key(instance_handle) ==> (r matches Ok(c) && *c
                == self@[instance_handle].context),
            !self@.contains_key(instance_handle) ==> r == Err::<
                &EvaluationContext,
                RegistryError,
            >(RegistryError::NotFound),
    {
        let n = self.entries.len();
        let mut i: usize = 0;
        while i < n
            invariant
                self.wf(),
                n == self.entries@.len(),
                0 <= i <= n,
                forall|k: int|
                    0 <= k < i ==> (#[trigger] self.entries@[k]).instance_handle
                        != instance_handle,
            decreases n - i,
        {
            if self.entries[i].instance_handle == instance_handle {
                return Ok(&self.entries[i].context);
            }
            i += 1;
        }
        proof {
            if self@.contains_key(instance_handle) {
                let k = choose|k: int|
                    0 <= k < self.entries@.len() && (#[trigger] self.entries@[k]).instance_handle
                        == instance_handle;
                assert(self.entries@[k].instance_handle == instance_handle);
            }
        }
        Err(RegistryError::NotFound)
    }

    /// The lifecycle law: registering a fresh instance handle and later
    /// unregistering it returns the registry to exactly the state it had
    /// before — building and tearing down one evaluator leaves no trace,
    /// whatever else is registered around it.
    pub proof fn lemma_register_unregister_roundtrip(
        table: Map<u64, RegistryEntry>,
        instance_handle: u64,
        entry: RegistryEntry,
    )
        requires
            !table.contains_key(instance_handle),
        ensures
            table.insert(instance_handle, entry).remove(instance_handle) == table,
    {
        assert(table.insert(instance_handle, entry).remove(instance_handle) =~= table);
    }

    /// Removes the entry registered under `instance_handle`, if any.
    /// Removal is idempotent: removing an absent handle leaves the registry
    /// as it is, so the teardown path may run on every exit path without
    /// further bookkeeping.
    pub fn unregister(&mut self, instance_handle: u64)
        requires
            old(self).wf(),
        ensures
            final(self).wf(),
            final(self)@ == old(self)@.remove(instance_handle),
            !final(self)@.contains_key(instance_handle),
    {
        let n = self.entries.len();
        let mut i: usize = 0;
        while i < n
            invariant
                *self == *old(self),
                self.wf(),
                n == self.entries@.len(),
                0 <= i <= n,
                forall|k: int|
                    0 <= k < i ==> (#[trigger] self.entries@[k]).instance_handle
                        != instance_handle,
            decreases n - i,
        {
            if self.entries[i].instance_handle == instance_handle {
                let ghost old_entries = self.entries@;
                let ghost old_table = self.table@;
                let ghost idx = i as int;
                self.entries.remove(i);
                proof {
                    self.table@ = old_table.remove(instance_handle);
                }
                proof {
                    assert(old_entries[idx].instance_handle == instance_handle);
                    assert forall|j: int| 0 <= j < self.entries@.len() implies {
                        let e = #[trigger] self.entries@[j];
                        self.table@.contains_key(e.instance_handle) && self.table@[e.instance_handle]
                            == e
                    } by {
                        if j < idx {
                            assert(self.entries@[j] == old_entries[j]);
                            assert(old_entries[j].instance_handle != instance_handle);
                        } else {
                            assert(self.entries@[j] == old_entries[j + 1]);
                            assert(old_entries[j + 1].instance_handle != instance_handle);
                        }
                    }
                    assert forall|h: u64| #[trigger] self.table@.contains_key(h) implies exists|
                        j: int,
                    |
                        0 <= j < self.entries@.len() && (#[trigger] self.entries@[j]).instance_handle
                            == h by {
                        let k = choose|k: int|
                            0 <= k < old_entries.len() && (#[trigger] old_entries[k]).instance_handle
                                == h;
                        if k < idx {
                            assert(self.entries@[k].instance_handle == h);
                        } else {
                            assert(k != idx);
                            assert(self.entries@[k - 1].instance_handle == h);
                        }
                    }
                    assert forall|a: int, b: int|
                        0 <= a < b < self.entries@.len() implies (
                    #[trigger] self.entries@[a]).instance_handle != (
                    #[trigger] self.entries@[b]).instance_handle by {
                        let oa = if a < idx { a } else { a + 1 };
                        let ob = if b < idx { b } else { b + 1 };
                        assert(self.entries@[a] == old_entries[oa]);
                        assert(self.entries@[b] == old_entries[ob]);
                    }
                }
                return ;
            }
            i += 1;
        }
        proof {
            if self@.contains_key(instance_handle) {
                let k = choose|k: int|
                    0 <= k < self.entries@.len() && (#[trigger] self.entries@[k]).instance_handle
                        == instance_handle;
                assert(self.entries@[k].instance_handle == instance_handle);
            }
            self.table@ = self.table@.remove(instance_handle);
            assert(self@ =~= old(self)@.remove(instance_handle));
        }
    }
}

} // verus!
