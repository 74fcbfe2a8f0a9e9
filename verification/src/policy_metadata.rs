//! Descriptors of the external cluster resources a policy may be allowed to
//! read, and the deduplicated allow-list the builder collects them in.

use vstd::prelude::*;

verus! {

/// Identifies one kind of external cluster resource, by API group/version
/// and kind.
#[derive(Debug)]
pub struct ContextAwareResource {
    pub api_version: String,
    pub kind: String,
}

impl View for ContextAwareResource {
    type V = (Seq<char>, Seq<char>);

    open spec fn view(&self) -> (Seq<char>, Seq<char>) {
        (self.api_version@, self.kind@)
    }
}

impl Clone for ContextAwareResource {
    fn clone(&self) -> (r: Self)
        ensures
            r@ == self@,
    {
        ContextAwareResource { api_version: self.api_version.clone(), kind: self.kind.clone() }
    }
}

impl PartialEq for ContextAwareResource {
    fn eq(&self, other: &Self) -> (r: bool) {
        self.api_version == other.api_version && self.kind == other.kind
    }
}

impl vstd::std_specs::cmp::PartialEqSpecImpl for ContextAwareResource {
    open spec fn obeys_eq_spec() -> bool {
        true
    }

    open spec fn eq_spec(&self, other: &Self) -> bool {
        self@ == other@
    }
}

/// The set of resource descriptors a policy is allowed to consult:
/// deduplicated, membership-tested, never mutated once the evaluator is
/// built.
#[derive(Debug)]
pub struct ContextAwareResourceSet {
    items: Vec<ContextAwareResource>,
}

impl View for ContextAwareResourceSet {
    type V = Set<(Seq<char>, Seq<char>)>;

    closed spec fn view(&self) -> Set<(Seq<char>, Seq<char>)> {
        Set::new(|p: (Seq<char>, Seq<char>)|
            exists|i: int| 0 <= i < self.items@.len() && self.items@[i]@ == p)
    }
}

impl Clone for ContextAwareResourceSet {
    fn clone(&self) -> (r: Self)
        ensures
            r@ == self@,
            r.wf() <==> self.wf(),
    {
        let n = self.items.len();
        let mut items: Vec<ContextAwareResource> = Vec::new();
        let mut i: usize = 0;
        while i < n
            invariant
                n == self.items@.len(),
                0 <= i <= n,
                items@.len() == i,
                forall|k: int| 0 <= k < i ==> items@[k]@ == self.items@[k]@,
            decreases n - i,
        {
            items.push(self.items[i].clone());
            i += 1;
        }
        let r = ContextAwareResourceSet { items };
        proof {
            assert forall|p: (Seq<char>, Seq<char>)| r@.contains(p) implies self@.contains(p) by {
                let k = choose|k: int| 0 <= k < r.items@.len() && r.items@[k]@ == p;
                assert(self.items@[k]@ == p);
            }
            assert forall|p: (Seq<char>, Seq<char>)| self@.contains(p) implies r@.contains(p) by {
                let k = choose|k: int| 0 <= k < self.items@.len() && self.items@[k]@ == p;
                assert(r.items@[k]@ == p);
            }
            assert(r@ =~= self@);
            assert forall|a: int, b: int| 0 <= a < b < r.items@.len() implies (r.items@[a]@
                != r.items@[b]@) == (self.items@[a]@ != self.items@[b]@) by {
                assert(r.items@[a]@ == self.items@[a]@);
                assert(r.items@[b]@ == self.items@[b]@);
            }
        }
        r
    }
}

impl ContextAwareResourceSet {
    /// No two stored descriptors name the same resource.
    pub closed spec fn wf(&self) -> bool {
        forall|i: int, j: int|
            0 <= i < j < self.items@.len() ==> self.items@[i]@ != self.items@[j]@
    }

    /// The empty allow-list.
    pub fn new() -> (r: Self)
        ensures
            r.wf(),
            r@ == Set::<(Seq<char>, Seq<char>)>::empty(),
    {
        let r = ContextAwareResourceSet { items: Vec::new() };
        proof {
            assert(r@ =~= Set::<(Seq<char>, Seq<char>)>::empty());
        }
        r
    }

    /// Whether `resource` is in the allow-list.
    pub fn contains(&self, resource: &ContextAwareResource) -> (r: bool)
        ensures
            r == self@.contains(resource@),
    {
        let n = self.items.len();
        let mut i: usize = 0;
        while i < n
            invariant
                n == self.items@.len(),
                0 <= i <= n,
                forall|k: int| 0 <= k < i ==> self.items@[k]@ != resource@,
            decreases n - i,
        {
            if self.items[i] == *resource {
                return true;
            }
            i += 1;
        }
        false
    }

    /// Adds `resource` unless an equal descriptor is already present.
    pub fn insert(&mut self, resource: ContextAwareResource)
        requires
            old(self).wf(),
        ensures
            final(self).wf(),
            final(self)@ == old(self)@.insert(resource@),
    {
        let present = self.contains(&resource);
        if !present {
            let ghost before = self.items@;
            self.items.push(resource);
            proof {
                assert forall|p: (Seq<char>, Seq<char>)| self@.contains(p) implies old(
                    self,
                )@.insert(resource@).contains(p) by {
                    let k = choose|k: int| 0 <= k < self.items@.len() && self.items@[k]@ == p;
                    if k < before.len() {
                        assert(before[k]@ == p);
                    }
                }
                assert forall|p: (Seq<char>, Seq<char>)| old(self)@.insert(resource@).contains(
                    p,
                ) implies self@.contains(p) by {
                    if p == resource@ {
                        assert(self.items@[before.len() as int]@ == p);
                    } else {
                        let k = choose|k: int| 0 <= k < before.len() && before[k]@ == p;
                        assert(self.items@[k]@ == p);
                    }
                }
                assert(self@ =~= old(self)@.insert(resource@));
            }
        } else {
            proof {
                assert forall|p: (Seq<char>, Seq<char>)| old(self)@.insert(resource@).contains(
                    p,
                ) implies self@.contains(p) by {
                    if p == resource@ {
                        let k = choose|k: int|
                            0 <= k < self.items@.len() && self.items@[k]@ == resource@;
                        assert(self.items@[k]@ == p);
                    }
                }
                assert(self@ =~= old(self)@.insert(resource@));
            }
        }
    }

    /// Builds the allow-list from a sequence of descriptors, dropping
    /// duplicates.
    pub fn from_items(items: Vec<ContextAwareResource>) -> (r: Self)
        ensures
            r.wf(),
            forall|i: int| 0 <= i < items@.len() ==> r@.contains(#[trigger] items@[i]@),
            forall|p: (Seq<char>, Seq<char>)| r@.contains(p)
                ==> exists|i: int| 0 <= i < items@.len() && items@[i]@ == p,
    {
        let mut r = ContextAwareResourceSet::new();
        let n = items.len();
        let mut i: usize = 0;
        while i < n
            invariant
                n == items@.len(),
                0 <= i <= n,
                r.wf(),
                forall|k: int| 0 <= k < i ==> r@.contains(#[trigger] items@[k]@),
                forall|p: (Seq<char>, Seq<char>)| r@.contains(p)
                    ==> exists|k: int| 0 <= k < i && items@[k]@ == p,
            decreases n - i,
        {
            let item = items[i].clone();
            r.insert(item);
            i += 1;
        }
        r
    }

    /// Whether the allow-list is empty.
    pub fn is_empty(&self) -> (r: bool)
        ensures
            r <==> self@ == Set::<(Seq<char>, Seq<char>)>::empty(),
    {
        proof {
            if self.items@.len() > 0 {
                assert(self@.contains(self.items@[0]@));
            } else {
                assert(self@ =~= Set::<(Seq<char>, Seq<char>)>::empty());
            }
        }
        self.items.is_empty()
    }
}

} // verus!
