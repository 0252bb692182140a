use vstd::prelude::*;

use crate::allocator::{Alloc, Global};
use crate::layout::Layout;

verus! {

/// A container that owns a raw heap region sized and aligned for exactly
/// one `T`, paired with the allocator instance that produced the region and
/// will reclaim it.
///
/// The box models raw storage for a `T`-shaped region, not a fully
/// value-semantic owner: its teardown, `dealloc_buffer`, only releases the
/// backing bytes and never runs any teardown logic belonging to `T`
/// itself. A caller whose `T` owns further resources should convert the
/// box into the value-owning handle (`into_box`) before letting it go.
///
/// If `T` is zero-sized, the address is the canonical dangling sentinel
/// for `T` and the allocator is never involved. Otherwise the address
/// refers to a single live allocation of the stored allocator, sized and
/// aligned for exactly one `T`; the box never holds a null address.
pub struct RealBox<T, A: Alloc = Global> {
    ptr: usize,
    val: Option<T>,
    a: A,
}

impl<T, A: Alloc> View for RealBox<T, A> {
    type V = Option<T>;

    closed spec fn view(&self) -> Option<T> {
        self.val
    }
}

impl<T, A: Alloc> RealBox<T, A> {
    /// The address this box owns.
    pub closed spec fn addr(&self) -> usize {
        self.ptr
    }

    /// The allocator instance stored in this box.
    pub closed spec fn allocator(&self) -> A {
        self.a
    }

    /// The adoption contract: whether `ptr` and `a` together form a box in
    /// a valid state. For a zero-sized `T` the address must be the
    /// canonical dangling sentinel; otherwise it must be a nonzero,
    /// non-sentinel address, aligned for `T`, that `a` holds live with the
    /// layout of exactly one `T`.
    pub open spec fn parts_wf(ptr: usize, a: A) -> bool {
        if vstd::layout::size_of::<T>() == 0 {
            ptr == Layout::spec_of::<T>().sentinel()
        } else {
            &&& ptr != 0
            &&& ptr % Layout::spec_of::<T>().align == 0
            &&& ptr != Layout::spec_of::<T>().sentinel()
            &&& a.live().contains_key(ptr)
            &&& a.live()[ptr] == Layout::spec_of::<T>()
        }
    }

    /// A box in a valid state: its address and its stored allocator agree
    /// as `parts_wf` demands.
    pub open spec fn wf(&self) -> bool {
        Self::parts_wf(self.addr(), self.allocator())
    }

    /// The address of the owned region. For a zero-sized `T` this is the
    /// dangling sentinel and must not be treated as backed by storage.
    pub fn ptr(&self) -> (p: usize)
        ensures
            p == self.addr(),
    {
        self.ptr
    }

    /// Shared view of the allocator backing this box.
    pub fn alloc_ref(&self) -> (a: &A)
        ensures
            *a == self.allocator(),
    {
        &self.a
    }

    /// Exclusive view of the allocator backing this box.
    pub fn alloc_mut(&mut self) -> (a: &mut A)
        ensures
            *a == old(self).allocator(),
            final(self).allocator() == *final(a),
            final(self).addr() == old(self).addr(),
            final(self)@ == old(self)@,
    {
        &mut self.a
    }

    /// The layout descriptor the owned region was produced with: always
    /// that of a single `T`.
    fn current_layout(&self) -> (l: Option<Layout>)
        ensures
            l == Some(Layout::spec_of::<T>()),
    {
        Some(Layout::of::<T>())
    }

    /// The one allocation step behind every construction variant. For a
    /// zero-sized `T` it returns the sentinel address and skips the
    /// allocator entirely; otherwise it requests a region for one `T`,
    /// zero-filled when `zeroed` is set.
    fn allocate_in(zeroed: bool, a: A) -> (r: Self)
        requires
            vstd::layout::size_of::<T>() != 0 ==> a.can_alloc(Layout::spec_of::<T>()),
        ensures
            r.wf(),
            r@ is None,
            vstd::layout::size_of::<T>() == 0 ==> r.allocator() == a,
            vstd::layout::size_of::<T>() != 0 ==> (
                !a.live().contains_key(r.addr())
                && r.allocator().live() == a.live().insert(r.addr(), Layout::spec_of::<T>())
                && r.allocator().allocs_made() == a.allocs_made() + 1
                && r.allocator().deallocs_made() == a.deallocs_made()
            ),
    {
        let l = Layout::of::<T>();
        let mut a = a;
        let ptr: usize = if l.size == 0 {
            l.align
        } else {
            if zeroed {
                a.allocate_zeroed(l)
            } else {
                a.allocate(l)
            }
        };
        RealBox { ptr, val: None, a }
    }

    /// Constructs a box over `a`, requesting zero-filled storage for one
    /// `T` unless `T` is zero-sized.
    pub(crate) fn new_in(a: A) -> (r: Self)
        requires
            vstd::layout::size_of::<T>() != 0 ==> a.can_alloc(Layout::spec_of::<T>()),
        ensures
            r.wf(),
            r@ is None,
            vstd::layout::size_of::<T>() == 0 ==> r.allocator() == a,
            vstd::layout::size_of::<T>() != 0 ==> (
                !a.live().contains_key(r.addr())
                && r.allocator().live() == a.live().insert(r.addr(), Layout::spec_of::<T>())
                && r.allocator().allocs_made() == a.allocs_made() + 1
                && r.allocator().deallocs_made() == a.deallocs_made()
            ),
    {
        RealBox::allocate_in(true, a)
    }

    /// Constructs a box over a caller-supplied allocator instance; the
    /// instance is stored in the box and later reclaims the region.
    ///
    /// For a non-zero-sized `T`, the returned address is nonzero, aligned
    /// for `T` and not the dangling sentinel. For a zero-sized `T`, the
    /// address is exactly the sentinel and the allocator comes back
    /// untouched: no allocator call is ever made on the zero-sized path.
    pub fn new_with_allocator(a: A) -> (r: Self)
        requires
            vstd::layout::size_of::<T>() != 0 ==> a.can_alloc(Layout::spec_of::<T>()),
        ensures
            r.wf(),
            r@ is None,
            vstd::layout::size_of::<T>() != 0 ==> (
                r.addr() != 0
                && r.addr() % Layout::spec_of::<T>().align == 0
                && r.addr() != Layout::spec_of::<T>().sentinel()
            ),
            vstd::layout::size_of::<T>() == 0 ==> (
                r.addr() == Layout::spec_of::<T>().sentinel()
                && r.allocator() == a
            ),
            vstd::layout::size_of::<T>() != 0 ==> (
                !a.live().contains_key(r.addr())
                && r.allocator().live() == a.live().insert(r.addr(), Layout::spec_of::<T>())
                && r.allocator().allocs_made() == a.allocs_made() + 1
                && r.allocator().deallocs_made() == a.deallocs_made()
            ),
    {
        Self::new_in(a)
    }

    /// Adopts a previously produced address together with the allocator
    /// that produced it, bypassing allocation. The adoption contract is
    /// checked here as a precondition rather than left to the caller's
    /// discipline: the address must have come from that exact allocator
    /// with the layout of a single `T`.
    pub fn from_raw_parts(ptr: usize, a: A) -> (r: Self)
        requires
            Self::parts_wf(ptr, a),
        ensures
            r.wf(),
            r.addr() == ptr,
            r.allocator() == a,
            r@ is None,
    {
        RealBox { ptr, val: None, a }
    }

    /// Stores a value in the owned region.
    pub fn write(&mut self, v: T)
        ensures
            final(self)@ == Some(v),
            final(self).addr() == old(self).addr(),
            final(self).allocator() == old(self).allocator(),
    {
        self.val = Some(v);
    }

    /// Reads the value stored in the owned region.
    pub fn read(&self) -> (r: &T)
        requires
            self@ is Some,
        ensures
            self@ == Some(*r),
    {
        self.val.as_ref().unwrap()
    }

    /// Releases the backing bytes through the stored allocator, with the
    /// layout recomputed for a single `T`; for a zero-sized `T` nothing
    /// happens. This is the box's teardown, and it deliberately does not
    /// invoke any teardown logic belonging to `T` itself.
    ///
    /// Afterwards the address is no longer live in the stored allocator,
    /// so for a non-zero-sized `T` the box is no longer well formed and no
    /// second release of it can be requested: teardown happens exactly
    /// once.
    pub fn dealloc_buffer(&mut self)
        requires
            old(self).wf(),
        ensures
            final(self).addr() == old(self).addr(),
            final(self)@ == old(self)@,
            vstd::layout::size_of::<T>() == 0 ==> final(self).allocator() == old(self).allocator(),
            vstd::layout::size_of::<T>() != 0 ==> (
                final(self).allocator().live()
                    == old(self).allocator().live().remove(old(self).addr())
                && !final(self).allocator().live().contains_key(old(self).addr())
                && final(self).allocator().allocs_made() == old(self).allocator().allocs_made()
                && final(self).allocator().deallocs_made()
                    == old(self).allocator().deallocs_made() + 1
            ),
    {
        let elem_size: usize = core::mem::size_of::<T>();
        if elem_size != 0 {
            if let Some(layout) = self.current_layout() {
                self.a.deallocate(self.ptr, layout);
            }
        }
    }
}

impl<T> RealBox<T, Global> {
    /// Constructs a box for one `T` over a fresh default allocator,
    /// requesting zero-filled storage.
    ///
    /// For a non-zero-sized `T`, the returned address is nonzero, aligned
    /// for `T` and not the dangling sentinel, and it is the single live
    /// allocation of the stored allocator. For a zero-sized `T`, the
    /// address is exactly the sentinel and the allocator has served no
    /// request at all.
    pub fn new() -> (r: Self)
        ensures
            r.wf(),
            r@ is None,
            vstd::layout::size_of::<T>() != 0 ==> (
                r.addr() != 0
                && r.addr() % Layout::spec_of::<T>().align == 0
                && r.addr() != Layout::spec_of::<T>().sentinel()
                && r.allocator().live()
                    == Map::<usize, Layout>::empty().insert(r.addr(), Layout::spec_of::<T>())
                && r.allocator().allocs_made() == 1
                && r.allocator().deallocs_made() == 0
            ),
            vstd::layout::size_of::<T>() == 0 ==> (
                r.addr() == Layout::spec_of::<T>().sentinel()
                && r.allocator().live() == Map::<usize, Layout>::empty()
                && r.allocator().allocs_made() == 0
                && r.allocator().deallocs_made() == 0
            ),
    {
        vstd::layout::layout_for_type_is_valid::<T>();
        Self::new_in(Global::new())
    }

    /// Converts the box into the owning handle: a pure ownership transfer
    /// at the same address, with no allocation and no deallocation. The
    /// box is consumed, so its own teardown is disarmed; from here on the
    /// handle alone is responsible for the region.
    pub fn into_box(self) -> (b: HeapBox<T>)
        requires
            self.wf(),
        ensures
            b.wf(),
            b.addr() == self.addr(),
            b@ == self@,
            b.allocator() == self.allocator(),
    {
        HeapBox { ptr: self.ptr, val: self.val, a: self.a }
    }

    /// Adopts the single-element buffer owned by the handle `b` without
    /// performing any new allocation call: the address, the stored value
    /// and the allocator move into the box unchanged, and the handle is
    /// consumed so its own teardown cannot fire. The box later releases
    /// the region with the same address and the same layout.
    pub fn from_box(b: HeapBox<T>) -> (r: Self)
        requires
            b.wf(),
        ensures
            r.wf(),
            r.addr() == b.addr(),
            r@ == b@,
            r.allocator() == b.allocator(),
    {
        RealBox { ptr: b.ptr, val: b.val, a: b.a }
    }

    /// Builds a `T` directly on the heap: allocates zero-filled storage
    /// for one `T` under the default allocator, converts it into the
    /// owning handle, and fills the now heap-resident slot with the value
    /// the initializer supplies.
    ///
    /// The handle's value is exactly the initializer's result, stored
    /// unchanged.
    pub fn heap_init<F: FnOnce() -> T>(initialize: F) -> (b: HeapBox<T>)
        requires
            call_requires(initialize, ()),
        ensures
            b.wf(),
            b@ is Some,
            call_ensures(initialize, (), b@->0),
            vstd::layout::size_of::<T>() != 0 ==> (
                b.allocator().live()
                    == Map::<usize, Layout>::empty().insert(b.addr(), Layout::spec_of::<T>())
                && b.allocator().allocs_made() == 1
                && b.allocator().deallocs_made() == 0
            ),
            vstd::layout::size_of::<T>() == 0 ==> (
                b.allocator().live() == Map::<usize, Layout>::empty()
                && b.allocator().allocs_made() == 0
            ),
    {
        let mut t = Self::new().into_box();
        let v = initialize();
        t.write(v);
        t
    }
}

/// The owning-pointer handle: a single-ownership heap abstraction that,
/// once given an address by conversion from a box, is solely responsible
/// for the region's eventual release and for disposing of the value it
/// holds. Only boxes over the default allocator convert into it.
pub struct HeapBox<T> {
    ptr: usize,
    val: Option<T>,
    a: Global,
}

impl<T> View for HeapBox<T> {
    type V = Option<T>;

    closed spec fn view(&self) -> Option<T> {
        self.val
    }
}

impl<T> HeapBox<T> {
    /// The address this handle owns.
    pub closed spec fn addr(&self) -> usize {
        self.ptr
    }

    /// The allocator instance stored in this handle.
    pub closed spec fn allocator(&self) -> Global {
        self.a
    }

    /// A handle in a valid state, under the same adoption contract as a
    /// box over the default allocator.
    pub open spec fn wf(&self) -> bool {
        RealBox::<T, Global>::parts_wf(self.addr(), self.allocator())
    }

    /// The address of the owned region.
    pub fn ptr(&self) -> (p: usize)
        ensures
            p == self.addr(),
    {
        self.ptr
    }

    /// Shared view of the allocator backing this handle.
    pub fn alloc_ref(&self) -> (a: &Global)
        ensures
            *a == self.allocator(),
    {
        &self.a
    }

    /// Reads the owned value.
    pub fn value(&self) -> (r: &T)
        requires
            self@ is Some,
        ensures
            self@ == Some(*r),
    {
        self.val.as_ref().unwrap()
    }

    /// Stores a value in the owned region.
    pub fn write(&mut self, v: T)
        ensures
            final(self)@ == Some(v),
            final(self).addr() == old(self).addr(),
            final(self).allocator() == old(self).allocator(),
    {
        self.val = Some(v);
    }

    /// Tears the handle down: disposes of the owned value and releases the
    /// backing bytes exactly once, then hands the allocator back so a
    /// caller can observe that nothing is left outstanding.
    pub fn free(self) -> (a: Global)
        requires
            self.wf(),
        ensures
            vstd::layout::size_of::<T>() == 0 ==> a == self.allocator(),
            vstd::layout::size_of::<T>() != 0 ==> (
                a.live() == self.allocator().live().remove(self.addr())
                && !a.live().contains_key(self.addr())
                && a.allocs_made() == self.allocator().allocs_made()
                && a.deallocs_made() == self.allocator().deallocs_made() + 1
            ),
    {
        let mut b = RealBox::<T, Global>::from_box(self);
        b.dealloc_buffer();
        b.a
    }
}

/// Law: constructing a box and immediately tearing it down leaves the
/// allocator exactly as it was, no matter how often the cycle repeats.
///
/// A construction hands the box an allocator holding one fresh address
/// over what `a0` held, and `dealloc_buffer` removes exactly that address
/// again; this closes the cycle: what comes out is what went in, so
/// nothing leaks and no foreign allocation is touched.
pub proof fn lemma_box_cycle_restores<T, A: Alloc>(a0: A, b: RealBox<T, A>, a1: A)
    requires
        vstd::layout::size_of::<T>() != 0,
        !a0.live().contains_key(b.addr()),
        b.allocator().live() == a0.live().insert(b.addr(), Layout::spec_of::<T>()),
        a1.live() == b.allocator().live().remove(b.addr()),
    ensures
        a1.live() == a0.live(),
{
    crate::allocator::lemma_alloc_dealloc_restores(a0.live(), b.addr(), Layout::spec_of::<T>());
}

/// Law: converting a box into the owning handle and then tearing the
/// handle down releases the box's allocation exactly once.
///
/// The conversion performs no allocator call at all: the handle carries
/// the very allocator value of the box. The handle's teardown then
/// retires the one address both share, shrinking the live allocations by
/// exactly one; afterwards that address is no longer live, so neither the
/// consumed box nor anything else can release it a second time.
pub proof fn lemma_handoff_releases_once<T>(b: RealBox<T, Global>, h: HeapBox<T>, a1: Global)
    requires
        vstd::layout::size_of::<T>() != 0,
        b.allocator().live().dom().finite(),
        b.wf(),
        h.addr() == b.addr(),
        h.allocator() == b.allocator(),
        a1.live() == h.allocator().live().remove(h.addr()),
    ensures
        !a1.live().contains_key(b.addr()),
        a1.live().dom().len() == b.allocator().live().dom().len() - 1,
{
    crate::allocator::lemma_release_drops_one(b.allocator().live(), b.addr());
}

} // verus!
