use vstd::prelude::*;

verus! {

/// A size and alignment pair describing the memory footprint that a single
/// value of some type requires. Every allocation and deallocation request
/// carries one of these descriptors, and a box always describes exactly one
/// element, never a region scaled by a count.
#[derive(Clone, Copy, PartialEq, Eq, Structural)]
pub struct Layout {
    /// Number of bytes a value occupies.
    pub size: usize,
    /// Required alignment of a value's address.
    pub align: usize,
}

impl Layout {
    /// A well-formed descriptor: a positive power-of-two alignment, with a
    /// size small enough that rounding it up to the alignment stays within
    /// the address space.
    pub open spec fn wf(self) -> bool {
        self.align >= 1 && vstd::layout::valid_layout(self.size, self.align)
    }

    /// The canonical dangling address for this alignment: the well-known,
    /// non-dereferenceable address that stands for "no storage needed".
    /// An allocator never hands it out, so it is free to serve as the
    /// address of every zero-sized value.
    pub open spec fn sentinel(self) -> usize {
        self.align
    }

    /// The descriptor for a single value of type `T`.
    pub open spec fn spec_of<T>() -> Layout {
        Layout {
            size: vstd::layout::size_of::<T>() as usize,
            align: vstd::layout::align_of::<T>() as usize,
        }
    }

    /// Computes the descriptor for a single value of type `T`, establishing
    /// along the way that it is well formed and that size and alignment fit
    /// in a `usize`.
    pub fn of<T>() -> (l: Layout)
        ensures
            l == Layout::spec_of::<T>(),
            l.size == vstd::layout::size_of::<T>(),
            l.align == vstd::layout::align_of::<T>(),
            l.wf(),
    {
        vstd::layout::layout_for_type_is_valid::<T>();
        Layout { size: core::mem::size_of::<T>(), align: core::mem::align_of::<T>() }
    }
}

/// A single well-formed allocation request always fits the address space:
/// its size plus twice its alignment stays below `usize::MAX`. This is
/// what lets a fresh allocator promise success for any layout that
/// describes one real value.
pub proof fn lemma_single_element_fits(l: Layout)
    requires
        l.wf(),
        l.size >= 1,
    ensures
        l.size + 2 * l.align < usize::MAX,
{
    let a = l.align as int;
    let m = isize::MAX as int;
    if a > m {
        vstd::arithmetic::div_mod::lemma_small_mod(isize::MAX as nat, l.align as nat);
        assert(false);
    }
    vstd::arithmetic::power2::is_pow2_equiv(a);
    let i = choose|i: nat| vstd::arithmetic::power::pow(2, i) == a;
    vstd::arithmetic::power2::lemma2_to64();
    vstd::arithmetic::power2::lemma2_to64_rest();
    if usize::MAX == 0xffff_ffff {
        lemma_fits_at_width(l, i, 31);
    } else {
        lemma_fits_at_width(l, i, 63);
    }
}

proof fn lemma_fits_at_width(l: Layout, i: nat, w1: nat)
    requires
        l.align as int == vstd::arithmetic::power::pow(2, i),
        1 <= l.size,
        l.size as int <= isize::MAX as int - (isize::MAX as int % l.align as int),
        l.align as int <= isize::MAX as int,
        isize::MAX as int + 1 == vstd::arithmetic::power2::pow2(w1) as int,
        usize::MAX as int == 2 * (isize::MAX as int) + 1,
        2 <= w1,
    ensures
        l.size + 2 * l.align < usize::MAX,
{
    let a = l.align as int;
    let m = isize::MAX as int;
    assert(a == vstd::arithmetic::power2::pow2(i) as int) by {
        vstd::arithmetic::power::lemma_pow_positive(2, i);
    }
    assert(i < w1) by {
        if i > w1 {
            vstd::arithmetic::power2::lemma_pow2_strictly_increases(w1, i);
        }
    }
    vstd::arithmetic::power2::lemma_pow2_adds(i, (w1 - i) as nat);
    let k = vstd::arithmetic::power2::pow2((w1 - i) as nat) as int;
    vstd::arithmetic::power2::lemma_pow2_pos((w1 - i) as nat);
    assert(m == (k - 1) * a + (a - 1)) by (nonlinear_arith)
        requires
            m + 1 == a * k,
    ;
    vstd::arithmetic::div_mod::lemma_fundamental_div_mod_converse(m, a, k - 1, a - 1);
    assert(m % a == a - 1);
    assert(a <= vstd::arithmetic::power2::pow2((w1 - 1) as nat) as int) by {
        if i < w1 - 1 {
            vstd::arithmetic::power2::lemma_pow2_strictly_increases(i, (w1 - 1) as nat);
        }
    }
    assert(2 * vstd::arithmetic::power2::pow2((w1 - 1) as nat) == vstd::arithmetic::power2::pow2(
        w1,
    )) by {
        vstd::arithmetic::power2::lemma_pow2_adds(1, (w1 - 1) as nat);
        vstd::arithmetic::power2::lemma2_to64();
    }
}

} // verus!
