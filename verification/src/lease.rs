//! The table of what a session holds: one canonical descriptor per resource.
use vstd::prelude::*;

use crate::protocol::Resource;

verus! {

/// A resource the session holds, with its canonical descriptor.
#[derive(Debug, Clone, Copy, PartialEq, Eq, Structural)]
pub struct Lease {
    /// The resource held.
    pub resource: Resource,
    /// The descriptor that the session owns for it.
    pub fd: i32,
}

/// Whether `leases` has a lease on `resource`.
pub open spec fn holds(leases: Seq<Lease>, resource: Resource) -> bool {
    exists|i: int| 0 <= i < leases.len() && (#[trigger] leases[i]).resource == resource
}

/// The canonical descriptor of a resource that is held.
pub open spec fn canonical(leases: Seq<Lease>, resource: Resource) -> i32
    recommends
        holds(leases, resource),
{
    let i = choose|i: int| 0 <= i < leases.len() && (#[trigger] leases[i]).resource == resource;
    leases[i].fd
}

/// No resource is held twice.
pub open spec fn is_lease_table(leases: Seq<Lease>) -> bool {
    forall|i: int, j: int|
        0 <= i < j < leases.len() ==> (#[trigger] leases[i]).resource != (
        #[trigger] leases[j]).resource
}

/// The leases but for the one on `resource`.
pub open spec fn without(leases: Seq<Lease>, resource: Resource) -> Seq<Lease> {
    leases.filter(|lease: Lease| lease.resource != resource)
}

/// The leases with `resource` on `fd`, in place of any lease on it before.
pub open spec fn with(leases: Seq<Lease>, resource: Resource, fd: i32) -> Seq<Lease> {
    without(leases, resource).push(Lease { resource, fd })
}

/// The resources held, oldest lease first.
pub open spec fn resources(leases: Seq<Lease>) -> Seq<Resource> {
    leases.map_values(|lease: Lease| lease.resource)
}

/// The canonical descriptors, oldest lease first.
pub open spec fn descriptors(leases: Seq<Lease>) -> Seq<i32> {
    leases.map_values(|lease: Lease| lease.fd)
}

/// Taking the one lease on a resource out leaves the others as they are.
pub proof fn lemma_without_at(leases: Seq<Lease>, i: int)
    requires
        is_lease_table(leases),
        0 <= i < leases.len(),
    ensures
        without(leases, leases[i].resource) == leases.remove(i),
        holds(leases, leases[i].resource),
        canonical(leases, leases[i].resource) == leases[i].fd,
{
    let resource = leases[i].resource;
    let other = |lease: Lease| lease.resource != resource;
    lemma_without_absent(leases.take(i), resource);
    lemma_without_absent(leases.skip(i + 1), resource);
    assert(leases == leases.take(i) + seq![leases[i]] + leases.skip(i + 1));
    Seq::filter_distributes_over_add(leases.take(i) + seq![leases[i]], leases.skip(i + 1), other);
    Seq::filter_distributes_over_add(leases.take(i), seq![leases[i]], other);
    assert(seq![leases[i]].filter(other) == Seq::<Lease>::empty()) by {
        reveal_with_fuel(Seq::filter, 2);
    }
    assert(leases.remove(i) == leases.take(i) + leases.skip(i + 1));
}

/// Without a lease on the resource there is nothing to take out.
pub proof fn lemma_without_absent(leases: Seq<Lease>, resource: Resource)
    requires
        forall|i: int| 0 <= i < leases.len() ==> (#[trigger] leases[i]).resource != resource,
    ensures
        without(leases, resource) == leases,
    decreases leases.len(),
{
    reveal(Seq::filter);
    if leases.len() > 0 {
        lemma_without_absent(leases.drop_last(), resource);
        assert(leases == leases.drop_last().push(leases.last()));
    }
}

/// A lease that is found anywhere in a table is the lease on its resource.
proof fn lemma_canonical_at(leases: Seq<Lease>, i: int)
    requires
        is_lease_table(leases),
        0 <= i < leases.len(),
    ensures
        holds(leases, leases[i].resource),
        canonical(leases, leases[i].resource) == leases[i].fd,
{
}

/// Ending the lease on a resource ends that lease alone: every other resource
/// is held as before, on the same descriptor.
pub proof fn lemma_without(leases: Seq<Lease>, resource: Resource, other: Resource)
    requires
        is_lease_table(leases),
    ensures
        is_lease_table(without(leases, resource)),
        !holds(without(leases, resource), resource),
        other != resource ==> (holds(without(leases, resource), other) <==> holds(leases, other)),
        other != resource && holds(leases, other) ==> canonical(without(leases, resource), other)
            == canonical(leases, other),
{
    let rest = without(leases, resource);
    if holds(leases, resource) {
        let at = choose|i: int|
            0 <= i < leases.len() && (#[trigger] leases[i]).resource == resource;
        lemma_without_at(leases, at);
        assert(rest == leases.remove(at));
        assert(is_lease_table(rest));
        if other != resource && holds(leases, other) {
            let i = choose|i: int|
                0 <= i < leases.len() && (#[trigger] leases[i]).resource == other;
            let j = if i < at {
                i
            } else {
                i - 1
            };
            assert(rest[j] == leases[i]);
            lemma_canonical_at(rest, j);
        }
        if holds(rest, other) {
            let j = choose|j: int| 0 <= j < rest.len() && (#[trigger] rest[j]).resource == other;
            let i = if j < at {
                j
            } else {
                j + 1
            };
            assert(rest[j] == leases[i]);
        }
    } else {
        lemma_without_absent(leases, resource);
    }
}

/// A grant puts the resource on the new descriptor and leaves every other
/// resource as it was.
pub proof fn lemma_with(leases: Seq<Lease>, resource: Resource, fd: i32, other: Resource)
    requires
        is_lease_table(leases),
    ensures
        is_lease_table(with(leases, resource, fd)),
        holds(with(leases, resource, fd), resource),
        canonical(with(leases, resource, fd), resource) == fd,
        other != resource ==> (holds(with(leases, resource, fd), other) <==> holds(
            leases,
            other,
        )),
        other != resource && holds(leases, other) ==> canonical(
            with(leases, resource, fd),
            other,
        ) == canonical(leases, other),
{
    let rest = without(leases, resource);
    let table = with(leases, resource, fd);
    lemma_without(leases, resource, other);
    assert(is_lease_table(table)) by {
        assert forall|i: int, j: int| 0 <= i < j < table.len() implies (
        #[trigger] table[i]).resource != (#[trigger] table[j]).resource by {
            assert(table[i] == rest[i]);
        }
    }
    lemma_canonical_at(table, table.len() - 1);
    if other != resource && holds(rest, other) {
        let i = choose|i: int| 0 <= i < rest.len() && (#[trigger] rest[i]).resource == other;
        assert(table[i] == rest[i]);
        lemma_canonical_at(table, i);
        lemma_canonical_at(rest, i);
    }
    if holds(table, other) && other != resource {
        let i = choose|i: int| 0 <= i < table.len() && (#[trigger] table[i]).resource == other;
        assert(table[i] == rest[i]);
    }
}

/// The list of the resources held names each of them once, and nothing else.
pub proof fn lemma_resources(leases: Seq<Lease>)
    requires
        is_lease_table(leases),
    ensures
        resources(leases).no_duplicates(),
        forall|resource: Resource| #[trigger]
            resources(leases).contains(resource) <==> holds(leases, resource),
{
    assert forall|resource: Resource| #[trigger]
        resources(leases).contains(resource) <==> holds(leases, resource) by {
        if holds(leases, resource) {
            let i = choose|i: int|
                0 <= i < leases.len() && (#[trigger] leases[i]).resource == resource;
            assert(resources(leases)[i] == resource);
        }
        if resources(leases).contains(resource) {
            let i = choose|i: int|
                0 <= i < resources(leases).len() && resources(leases)[i] == resource;
            assert(leases[i].resource == resource);
        }
    }
}

/// What the session holds.
#[derive(Debug)]
pub struct LeaseTable {
    leases: Vec<Lease>,
}

impl View for LeaseTable {
    type V = Seq<Lease>;

    closed spec fn view(&self) -> Seq<Lease> {
        self.leases@
    }
}

impl LeaseTable {
    /// No resource is held twice.
    pub open spec fn wf(&self) -> bool {
        is_lease_table(self@)
    }

    /// A table without leases.
    pub fn new() -> (table: LeaseTable)
        ensures
            table.wf(),
            table@ == Seq::<Lease>::empty(),
    {
        LeaseTable { leases: Vec::new() }
    }

    /// Where the lease on `resource` is, if there is one.
    fn position(&self, resource: Resource) -> (position: Option<usize>)
        ensures
            match position {
                Some(i) => i < self@.len() && self@[i as int].resource == resource,
                None => !holds(self@, resource),
            },
    {
        let mut i: usize = 0;
        while i < self.leases.len()
            invariant
                i <= self.leases@.len(),
                forall|j: int| 0 <= j < i ==> (#[trigger] self.leases@[j]).resource != resource,
            decreases self.leases@.len() - i,
        {
            if self.leases[i].resource == resource {
                return Some(i);
            }
            i += 1;
        }
        None
    }

    /// The canonical descriptor of `resource`, if it is held.
    pub fn get(&self, resource: Resource) -> (fd: Option<i32>)
        requires
            self.wf(),
        ensures
            fd == if holds(self@, resource) {
                Some(canonical(self@, resource))
            } else {
                None
            },
    {
        match self.position(resource) {
            Some(i) => {
                proof {
                    lemma_without_at(self@, i as int);
                }
                Some(self.leases[i].fd)
            },
            None => None,
        }
    }

    /// Ends the lease on `resource`; the descriptor it had goes to the caller.
    pub fn remove(&mut self, resource: Resource) -> (fd: Option<i32>)
        requires
            old(self).wf(),
        ensures
            final(self).wf(),
            final(self)@ == without(old(self)@, resource),
            fd == if holds(old(self)@, resource) {
                Some(canonical(old(self)@, resource))
            } else {
                None
            },
    {
        match self.position(resource) {
            Some(i) => {
                proof {
                    lemma_without_at(self@, i as int);
                }
                let lease = self.leases.remove(i);
                Some(lease.fd)
            },
            None => {
                proof {
                    lemma_without_absent(self@, resource);
                }
                None
            },
        }
    }

    /// Holds `resource` on `fd` from now on; the descriptor it had before, if
    /// any, goes to the caller.
    pub fn insert(&mut self, resource: Resource, fd: i32) -> (replaced: Option<i32>)
        requires
            old(self).wf(),
        ensures
            final(self).wf(),
            final(self)@ == with(old(self)@, resource, fd),
            replaced == if holds(old(self)@, resource) {
                Some(canonical(old(self)@, resource))
            } else {
                None
            },
    {
        let replaced = self.remove(resource);
        proof {
            broadcast use vstd::seq_lib::group_filter_ensures;
        }
        self.leases.push(Lease { resource, fd });
        replaced
    }

    /// Ends the oldest lease.
    pub fn pop(&mut self) -> (lease: Option<Lease>)
        requires
            old(self).wf(),
        ensures
            final(self).wf(),
            match lease {
                Some(lease) => {
                    &&& old(self)@.len() > 0
                    &&& lease == old(self)@[0]
                    &&& final(self)@ == old(self)@.drop_first()
                },
                None => old(self)@.len() == 0 && final(self)@ == old(self)@,
            },
    {
        if self.leases.len() == 0 {
            None
        } else {
            let lease = self.leases.remove(0);
            assert(self@ == old(self)@.drop_first());
            Some(lease)
        }
    }

    /// The resources held, each once, oldest lease first.
    pub fn resources(&self) -> (held: Vec<Resource>)
        ensures
            held@ == resources(self@),
    {
        let mut held: Vec<Resource> = Vec::new();
        let mut i: usize = 0;
        while i < self.leases.len()
            invariant
                i <= self.leases@.len(),
                held@ == resources(self.leases@.take(i as int)),
            decreases self.leases@.len() - i,
        {
            held.push(self.leases[i].resource);
            assert(self.leases@.take(i + 1) == self.leases@.take(i as int).push(
                self.leases@[i as int],
            ));
            i += 1;
        }
        assert(self.leases@.take(i as int) == self.leases@);
        held
    }
}

} // verus!
