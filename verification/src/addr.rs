//! Address arithmetic shared by the allocators.
//!
//! All cursor computations go through the two rounding functions here, so
//! that every overflow check and alignment fact is proved in one place.

use vstd::prelude::*;
use vstd::arithmetic::div_mod::{
    lemma_add_mod_noop, lemma_mod_bound, lemma_mod_self_0, lemma_mod_twice, lemma_small_mod,
    lemma_sub_mod_noop,
};

verus! {

/// The smallest multiple of `align` that is not below `addr`.
pub open spec fn spec_align_up(addr: int, align: int) -> int
    recommends
        align > 0,
{
    if addr % align == 0 {
        addr
    } else {
        addr + (align - addr % align)
    }
}

/// The largest multiple of `align` that is not above `addr`.
pub open spec fn spec_align_down(addr: int, align: int) -> int
    recommends
        align > 0,
{
    addr - addr % align
}

/// Alignments handed to the allocators must be powers of two.
pub open spec fn is_power_of_two(n: int) -> bool
    decreases n,
{
    if n <= 0 {
        false
    } else if n == 1 {
        true
    } else {
        n % 2 == 0 && is_power_of_two(n / 2)
    }
}

/// Rounding up yields a multiple of `align` in `[addr, addr + align)`.
pub proof fn lemma_align_up(addr: int, align: int)
    requires
        align > 0,
        addr >= 0,
    ensures
        spec_align_up(addr, align) % align == 0,
        addr <= spec_align_up(addr, align) < addr + align,
{
    let r = addr % align;
    lemma_mod_twice(addr, align);
    if r != 0 {
        lemma_add_mod_noop(addr, align - r, align);
        lemma_mod_self_0(align);
        assert((align - r) % align == align - r) by {
            lemma_small_mod((align - r) as nat, align as nat);
        }
        lemma_mod_twice(addr + (align - r), align);
    }
}

/// Rounding down yields a multiple of `align` in `(addr - align, addr]`.
pub proof fn lemma_align_down(addr: int, align: int)
    requires
        align > 0,
        addr >= 0,
    ensures
        spec_align_down(addr, align) % align == 0,
        addr - align < spec_align_down(addr, align) <= addr,
        spec_align_down(addr, align) >= 0,
{
    let r = addr % align;
    lemma_mod_bound(addr, align);
    lemma_mod_twice(addr, align);
    lemma_sub_mod_noop(addr, r, align);
    assert((addr - r) % align == (r - r % align) % align);
    assert((addr - r) % align == 0) by {
        lemma_small_mod(0nat, align as nat);
    }
    if addr < align {
        lemma_small_mod(addr as nat, align as nat);
    }
}

/// Round `addr` up to the next multiple of `align`.
pub fn align_up(addr: usize, align: usize) -> (r: usize)
    requires
        align > 0,
        spec_align_up(addr as int, align as int) <= usize::MAX,
    ensures
        r == spec_align_up(addr as int, align as int),
        r % align == 0,
        addr <= r < addr + align,
{
    proof {
        lemma_align_up(addr as int, align as int);
    }
    let rem = addr % align;
    if rem == 0 {
        addr
    } else {
        addr + (align - rem)
    }
}

/// Round `addr` up to the next multiple of `align`; `None` when that
/// multiple does not fit in `usize`.
pub fn checked_align_up(addr: usize, align: usize) -> (r: Option<usize>)
    requires
        align > 0,
    ensures
        spec_align_up(addr as int, align as int) <= usize::MAX ==> r == Some(
            spec_align_up(addr as int, align as int) as usize,
        ),
        spec_align_up(addr as int, align as int) > usize::MAX ==> r is None,
{
    proof {
        lemma_align_up(addr as int, align as int);
    }
    let rem = addr % align;
    if rem == 0 {
        Some(addr)
    } else {
        addr.checked_add(align - rem)
    }
}

/// Round `addr` down to the previous multiple of `align`.
pub fn align_down(addr: usize, align: usize) -> (r: usize)
    requires
        align > 0,
    ensures
        r == spec_align_down(addr as int, align as int),
        r % align == 0,
        r <= addr < r + align,
{
    proof {
        lemma_align_down(addr as int, align as int);
    }
    addr - (addr % align)
}

} // verus!
