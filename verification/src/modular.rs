//! Wrapping a mathematical integer into a machine range.

use vstd::arithmetic::div_mod::{
    lemma_add_mod_noop_right, lemma_small_mod, lemma_sub_mod_noop_right,
};
use vstd::prelude::*;

verus! {

/// The representative of `x` modulo `modulus` in the range that starts at `lo`.
pub open spec fn wrap(lo: int, modulus: int, x: int) -> int {
    lo + (x - lo) % modulus
}

/// Wrapping leaves a value of the range as it is.
pub proof fn lemma_wrap_fixed(lo: int, modulus: int, x: int)
    requires
        modulus > 0,
        lo <= x < lo + modulus,
    ensures
        wrap(lo, modulus, x) == x,
{
    lemma_small_mod((x - lo) as nat, modulus as nat);
}

/// Wrapping one operand of a sum before the sum is wrapped changes nothing.
pub proof fn lemma_wrap_add(lo: int, modulus: int, a: int, b: int)
    requires
        modulus > 0,
    ensures
        wrap(lo, modulus, wrap(lo, modulus, a) + b) == wrap(lo, modulus, a + b),
        wrap(lo, modulus, a + wrap(lo, modulus, b)) == wrap(lo, modulus, a + b),
{
    lemma_add_mod_noop_right(b, a - lo, modulus);
    assert(wrap(lo, modulus, a) + b - lo == b + (a - lo) % modulus);
    assert(b + (a - lo) == a + b - lo);
    lemma_add_mod_noop_right(a, b - lo, modulus);
    assert(a + wrap(lo, modulus, b) - lo == a + (b - lo) % modulus);
    assert(a + (b - lo) == a + b - lo);
}

/// Wrapping one operand of a difference before the difference is wrapped
/// changes nothing.
pub proof fn lemma_wrap_sub(lo: int, modulus: int, a: int, b: int)
    requires
        modulus > 0,
    ensures
        wrap(lo, modulus, wrap(lo, modulus, a) - b) == wrap(lo, modulus, a - b),
        wrap(lo, modulus, a - wrap(lo, modulus, b)) == wrap(lo, modulus, a - b),
{
    lemma_wrap_add(lo, modulus, a, -b);
    lemma_sub_mod_noop_right(a - 2 * lo, b - lo, modulus);
    assert(a - wrap(lo, modulus, b) - lo == (a - 2 * lo) - (b - lo) % modulus);
    assert((a - 2 * lo) - (b - lo) == a - b - lo);
}

} // verus!
