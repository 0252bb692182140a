use vstd::prelude::*;

use crate::layout::Layout;

verus! {

/// The capability that any pluggable memory source must offer to back a
/// box: reserve a region for a layout descriptor (optionally zero-filled)
/// and release a region previously obtained with the same descriptor.
///
/// An allocator is modeled by the map of its live allocations, each
/// allocated address paired with the descriptor it was requested with, and
/// by running counts of the requests it has served. The contract pins down
/// the discipline every implementation must keep: a reserved address is
/// nonzero, respects the requested alignment, is never the dangling
/// sentinel, and is fresh, and a release retires exactly the released
/// address.
pub trait Alloc: Sized {
    /// The live allocations: every address currently reserved, mapped to
    /// the descriptor it was reserved with.
    spec fn live(&self) -> Map<usize, Layout>;

    /// Total number of allocation requests served so far.
    spec fn allocs_made(&self) -> nat;

    /// Total number of deallocation requests served so far.
    spec fn deallocs_made(&self) -> nat;

    /// Whether a request for `l` is guaranteed to succeed in the current
    /// state. Failure to satisfy a request is not recoverable through this
    /// capability, so a request may only be issued when this holds.
    spec fn can_alloc(&self, l: Layout) -> bool;

    /// Reserves a region for one value described by `l`. Zero-sized
    /// requests are handled at the box level by convention and are never
    /// delegated to an allocator.
    fn allocate(&mut self, l: Layout) -> (p: usize)
        requires
            old(self).can_alloc(l),
            l.wf(),
            l.size >= 1,
        ensures
            p != 0,
            p % l.align == 0,
            p != l.sentinel(),
            !old(self).live().contains_key(p),
            final(self).live() == old(self).live().insert(p, l),
            final(self).allocs_made() == old(self).allocs_made() + 1,
            final(self).deallocs_made() == old(self).deallocs_made(),
        ;

    /// Like `allocate`, with every byte of the region initialized to zero.
    fn allocate_zeroed(&mut self, l: Layout) -> (p: usize)
        requires
            old(self).can_alloc(l),
            l.wf(),
            l.size >= 1,
        ensures
            p != 0,
            p % l.align == 0,
            p != l.sentinel(),
            !old(self).live().contains_key(p),
            final(self).live() == old(self).live().insert(p, l),
            final(self).allocs_made() == old(self).allocs_made() + 1,
            final(self).deallocs_made() == old(self).deallocs_made(),
        ;

    /// Releases the region at `p`, which must be live and must have been
    /// reserved with the same descriptor `l`. Afterwards `p` is no longer
    /// live, so a second release of the same address cannot satisfy this
    /// contract.
    fn deallocate(&mut self, p: usize, l: Layout)
        requires
            old(self).live().contains_key(p),
            old(self).live()[p] == l,
        ensures
            final(self).live() == old(self).live().remove(p),
            final(self).allocs_made() == old(self).allocs_made(),
            final(self).deallocs_made() == old(self).deallocs_made() + 1,
        ;
}

/// The default allocator: a model of the process-wide memory source.
///
/// Each instance serves addresses from its own strictly growing frontier,
/// so within one instance an address is never reissued while it is live,
/// and it keeps the counters that let a caller observe, at run time, how
/// many requests a box made and how many allocations are still
/// outstanding.
pub struct Global {
    frontier: usize,
    outstanding: usize,
    allocs: usize,
    deallocs: usize,
    heap: Ghost<Map<usize, Layout>>,
}

impl Global {
    #[verifier::type_invariant]
    spec fn inv(self) -> bool {
        &&& self.heap@.dom().finite()
        &&& self.outstanding == self.heap@.dom().len()
        &&& self.deallocs <= self.allocs
        &&& self.allocs - self.deallocs == self.outstanding
        &&& self.allocs < self.frontier
        &&& forall|p: usize| #[trigger] self.heap@.dom().contains(p)
            ==> self.heap@[p].size >= 1 && p + self.heap@[p].size <= self.frontier
    }

    /// A fresh instance: nothing live, no requests served, and room for
    /// every well-formed single-element request.
    pub fn new() -> (a: Global)
        ensures
            a.live() == Map::<usize, Layout>::empty(),
            a.allocs_made() == 0,
            a.deallocs_made() == 0,
            forall|l: Layout| l.wf() && l.size >= 1 ==> #[trigger] a.can_alloc(l),
    {
        proof {
            broadcast use vstd::set::group_set_axioms;

            assert(Map::<usize, Layout>::empty().dom() =~= Set::<usize>::empty());
        }
        let a = Global { frontier: 1, outstanding: 0, allocs: 0, deallocs: 0, heap: Ghost(Map::empty()) };
        proof {
            assert forall|l: Layout| l.wf() && l.size >= 1 implies #[trigger] a.can_alloc(l) by {
                crate::layout::lemma_single_element_fits(l);
            }
        }
        a
    }

    /// Number of allocations currently live in this instance.
    pub fn outstanding(&self) -> (n: usize)
        ensures
            n == self.live().len(),
    {
        proof {
            use_type_invariant(&*self);
        }
        self.outstanding
    }

    /// Total number of allocation requests this instance has served.
    pub fn calls(&self) -> (n: usize)
        ensures
            n == self.allocs_made(),
    {
        self.allocs
    }

    /// Total number of deallocation requests this instance has served.
    pub fn frees(&self) -> (n: usize)
        ensures
            n == self.deallocs_made(),
    {
        self.deallocs
    }
}

impl Alloc for Global {
    closed spec fn live(&self) -> Map<usize, Layout> {
        self.heap@
    }

    closed spec fn allocs_made(&self) -> nat {
        self.allocs as nat
    }

    closed spec fn deallocs_made(&self) -> nat {
        self.deallocs as nat
    }

    closed spec fn can_alloc(&self, l: Layout) -> bool {
        l.wf() && l.size >= 1 && self.frontier + 2 * l.align + l.size <= usize::MAX
    }

    fn allocate(&mut self, l: Layout) -> (p: usize) {
        proof {
            use_type_invariant(&*self);
        }
        let rem: usize = self.frontier % l.align;
        let q: usize = if rem == 0 {
            self.frontier
        } else {
            self.frontier + (l.align - rem)
        };
        proof {
            vstd::arithmetic::div_mod::lemma_fundamental_div_mod(
                self.frontier as int,
                l.align as int,
            );
            assert(q % l.align == 0) by {
                let k = self.frontier as int / l.align as int;
                if rem == 0 {
                    assert(q == l.align * k);
                } else {
                    assert(q == l.align * (k + 1)) by {
                        assert(l.align * (k + 1) == l.align * k + l.align)
                            by (nonlinear_arith);
                    }
                }
                vstd::arithmetic::div_mod::lemma_mod_multiples_basic(
                    if rem == 0 { k } else { k + 1 },
                    l.align as int,
                );
            }
            assert(q >= l.align) by {
                if q < l.align {
                    vstd::arithmetic::div_mod::lemma_small_mod(q as nat, l.align as nat);
                }
            }
        }
        let p: usize = if q == l.align {
            2 * l.align
        } else {
            q
        };
        proof {
            assert(p % l.align == 0) by {
                if q == l.align {
                    vstd::arithmetic::div_mod::lemma_mod_multiples_basic(2, l.align as int);
                }
            }
            assert(p >= self.frontier);
            assert(p > l.align);
            assert(!self.heap@.dom().contains(p));
        }
        let new_frontier: usize = p + l.size;
        let ghost new_heap: Map<usize, Layout> = self.heap@.insert(p, l);
        proof {
            broadcast use vstd::set::group_set_axioms;

            assert(new_heap.dom() =~= self.heap@.dom().insert(p));
            assert(new_heap.dom().len() == self.heap@.dom().len() + 1);
        }
        let updated = Global {
            frontier: new_frontier,
            outstanding: self.outstanding + 1,
            allocs: self.allocs + 1,
            deallocs: self.deallocs,
            heap: Ghost(new_heap),
        };
        *self = updated;
        p
    }

    fn allocate_zeroed(&mut self, l: Layout) -> (p: usize) {
        self.allocate(l)
    }

    fn deallocate(&mut self, p: usize, l: Layout) {
        proof {
            use_type_invariant(&*self);
            broadcast use vstd::set::group_set_axioms;

            assert(self.heap@.dom().contains(p));
            assert(self.heap@.dom().len() >= 1);
            assert(self.heap@.remove(p).dom() =~= self.heap@.dom().remove(p));
        }
        let updated = Global {
            frontier: self.frontier,
            outstanding: self.outstanding - 1,
            allocs: self.allocs,
            deallocs: self.deallocs + 1,
            heap: Ghost(self.heap@.remove(p)),
        };
        *self = updated;
    }
}

/// A second memory source with the same model and the same observation
/// surface, standing for the system allocator; it lets callers exercise a
/// box over an allocator other than the default one.
pub struct System {
    inner: Global,
}

impl System {
    /// A fresh instance: nothing live, no requests served.
    pub fn new() -> (a: System)
        ensures
            a.live() == Map::<usize, Layout>::empty(),
            a.allocs_made() == 0,
            a.deallocs_made() == 0,
            forall|l: Layout| l.wf() && l.size >= 1 ==> #[trigger] a.can_alloc(l),
    {
        System { inner: Global::new() }
    }

    /// Number of allocations currently live in this instance.
    pub fn outstanding(&self) -> (n: usize)
        ensures
            n == self.live().len(),
    {
        self.inner.outstanding()
    }

    /// Total number of allocation requests this instance has served.
    pub fn calls(&self) -> (n: usize)
        ensures
            n == self.allocs_made(),
    {
        self.inner.calls()
    }

    /// Total number of deallocation requests this instance has served.
    pub fn frees(&self) -> (n: usize)
        ensures
            n == self.deallocs_made(),
    {
        self.inner.frees()
    }
}

impl Alloc for System {
    closed spec fn live(&self) -> Map<usize, Layout> {
        self.inner.live()
    }

    closed spec fn allocs_made(&self) -> nat {
        self.inner.allocs_made()
    }

    closed spec fn deallocs_made(&self) -> nat {
        self.inner.deallocs_made()
    }

    closed spec fn can_alloc(&self, l: Layout) -> bool {
        self.inner.can_alloc(l)
    }

    fn allocate(&mut self, l: Layout) -> (p: usize) {
        self.inner.allocate(l)
    }

    fn allocate_zeroed(&mut self, l: Layout) -> (p: usize) {
        self.inner.allocate_zeroed(l)
    }

    fn deallocate(&mut self, p: usize, l: Layout) {
        self.inner.deallocate(p, l)
    }
}

/// Law: one allocate/deallocate cycle restores the allocator's live map.
///
/// A construction records one fresh address in the live map and teardown
/// removes exactly that address, so constructing and immediately dropping,
/// any number of times over, leaves the map of outstanding allocations as
/// it was: nothing leaks.
pub proof fn lemma_alloc_dealloc_restores(m: Map<usize, Layout>, p: usize, l: Layout)
    requires
        !m.contains_key(p),
    ensures
        m.insert(p, l).remove(p) == m,
{
    assert(m.insert(p, l).remove(p) =~= m);
}

/// Law: a release retires its address for good.
///
/// After the one deallocation of an address, that address is no longer
/// live, so no second release of it can meet the allocator's contract: a
/// double free is not expressible against a verified caller.
pub proof fn lemma_release_is_final(m: Map<usize, Layout>, p: usize)
    ensures
        !m.remove(p).contains_key(p),
{
}

/// Law: a release retires exactly one allocation.
///
/// Handing a live address to the allocator's release operation shrinks the
/// set of outstanding allocations by exactly one: memory is released once,
/// not zero times and not twice.
pub proof fn lemma_release_drops_one(m: Map<usize, Layout>, p: usize)
    requires
        m.dom().finite(),
        m.contains_key(p),
    ensures
        m.remove(p).dom().len() == m.dom().len() - 1,
{
    broadcast use vstd::set::group_set_axioms;

    assert(m.remove(p).dom() =~= m.dom().remove(p));
}

} // verus!
