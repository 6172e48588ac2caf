//! Address alignment arithmetic shared by the bump engines.

use vstd::prelude::*;

verus! {

use vstd::arithmetic::div_mod::{
    lemma_fundamental_div_mod, lemma_fundamental_div_mod_converse, lemma_mod_bound,
};

/// An alignment the allocators accept: a positive power of two.
pub open spec fn is_power_of_two(n: int) -> bool
    decreases n,
{
    if n <= 0 {
        false
    } else if n == 1 {
        true
    } else {
        n % 2 == 0 && is_power_of_two(n / 2)
    }
}

/// The smallest multiple of `align` that is not below `addr`.
pub open spec fn align_up(addr: int, align: int) -> int
    recommends
        align >= 1,
{
    ((addr + align - 1) / align) * align
}

/// `align_up` lands on a multiple of the alignment, never moves an address
/// backwards, and pads by strictly less than one alignment unit.
pub proof fn lemma_align_up(addr: int, align: int)
    requires
        addr >= 0,
        align >= 1,
    ensures
        align_up(addr, align) % align == 0,
        addr <= align_up(addr, align) < addr + align,
        addr % align == 0 ==> align_up(addr, align) == addr,
        align_up(addr, 1) == addr,
{
    let s = addr + align - 1;
    lemma_fundamental_div_mod(s, align);
    lemma_mod_bound(s, align);
    let q = s / align;
    let r = s % align;
    assert(s == align * q + r);
    assert(align_up(addr, align) == q * align) by {
        assert(align * q == q * align) by (nonlinear_arith);
    }
    lemma_fundamental_div_mod(addr, align);
    lemma_mod_bound(addr, align);
    let q0 = addr / align;
    let r0 = addr % align;
    if r0 == 0 {
        // addr is already a multiple: s = q0 * align + (align - 1).
        assert(s == q0 * align + (align - 1)) by {
            assert(align * q0 == q0 * align) by (nonlinear_arith);
        }
        lemma_fundamental_div_mod_converse(s, align, q0, align - 1);
        assert(q == q0);
        assert(align_up(addr, align) == addr) by {
            assert(q0 * align == align * q0) by (nonlinear_arith);
        }
    } else {
        // s = (q0 + 1) * align + (r0 - 1), with 0 <= r0 - 1 < align.
        assert(s == (q0 + 1) * align + (r0 - 1)) by {
            assert(align * q0 == q0 * align) by (nonlinear_arith);
            assert((q0 + 1) * align == q0 * align + align) by (nonlinear_arith);
        }
        lemma_fundamental_div_mod_converse(s, align, q0 + 1, r0 - 1);
        assert(q == q0 + 1);
        assert(align_up(addr, align) == addr + (align - r0)) by {
            assert((q0 + 1) * align == q0 * align + align) by (nonlinear_arith);
            assert(q0 * align == align * q0) by (nonlinear_arith);
        }
    }
    assert(align_up(addr, align) % align == 0) by {
        vstd::arithmetic::div_mod::lemma_mod_multiples_basic(q, align);
    }
}

/// The exact amount of padding `align_up` inserts, as the engine computes it.
pub proof fn lemma_align_up_pad(addr: int, align: int)
    requires
        addr >= 0,
        align >= 1,
    ensures
        addr % align == 0 ==> align_up(addr, align) == addr,
        addr % align != 0 ==> align_up(addr, align) == addr + align - (addr % align),
{
    lemma_align_up(addr, align);
    lemma_fundamental_div_mod(addr, align);
    lemma_mod_bound(addr, align);
    let q0 = addr / align;
    let r0 = addr % align;
    if r0 != 0 {
        let s = addr + align - 1;
        assert(s == (q0 + 1) * align + (r0 - 1)) by {
            assert(align * q0 == q0 * align) by (nonlinear_arith);
            assert((q0 + 1) * align == q0 * align + align) by (nonlinear_arith);
        }
        lemma_fundamental_div_mod_converse(s, align, q0 + 1, r0 - 1);
        assert(align_up(addr, align) == (q0 + 1) * align);
        assert((q0 + 1) * align == addr + align - r0) by {
            assert(align * q0 == q0 * align) by (nonlinear_arith);
            assert((q0 + 1) * align == q0 * align + align) by (nonlinear_arith);
        }
    }
}

} // verus!
