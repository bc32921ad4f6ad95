//! Mathematical model of the prime field over which the circuit's
//! constraints are evaluated.
//!
//! A field element is represented canonically as an integer in
//! `[0, modulus())`; subtraction and multiplication reduce modulo the field
//! order at every step, exactly as the backend's field arithmetic does.

use vstd::prelude::*;
use vstd::arithmetic::div_mod::{lemma_small_mod, lemma_mod_add_multiples_vanish};

verus! {

/// Order of the prime field used by the proving backend: the base field of
/// the Pallas curve.
pub open spec fn modulus() -> int {
    0x40000000000000000000000000000000224698fc094cf91b992d30ed00000001int
}

/// A canonical field element: an integer in `[0, modulus())`.
pub open spec fn is_elem(x: int) -> bool {
    0 <= x < modulus()
}

/// Field subtraction: the canonical representative of `a - b`.
pub open spec fn fsub(a: int, b: int) -> int {
    (a - b) % modulus()
}

/// Field multiplication: the canonical representative of `a * b`.
pub open spec fn fmul(a: int, b: int) -> int {
    (a * b) % modulus()
}

/// Every 64-bit integer is already a canonical field element: the field
/// order is far larger than `u64::MAX`.
pub proof fn lemma_u64_is_elem(x: u64)
    ensures
        is_elem(x as int),
{
}

/// Subtraction of canonical elements vanishes exactly on equal arguments.
pub proof fn lemma_fsub_zero_iff_eq(a: int, b: int)
    requires
        is_elem(a),
        is_elem(b),
    ensures
        fsub(a, b) == 0 <==> a == b,
{
    if a >= b {
        lemma_small_mod((a - b) as nat, modulus() as nat);
    } else {
        lemma_mod_add_multiples_vanish(a - b, modulus());
        lemma_small_mod((a - b + modulus()) as nat, modulus() as nat);
    }
}

} // verus!
