//! Base field elements ("belts") of the prime field with modulus
//! `PRIME = 2^64 - 2^32 + 1`, together with the gateway operations the
//! sponge pipeline needs: the canonical-range check, entry into the
//! Montgomery domain, and reduction back out of it.

use vstd::prelude::*;

verus! {

/// The field modulus, `2^64 - 2^32 + 1`.
pub const PRIME: u64 = 18446744069414584321;

/// The field modulus as a `u128`, for wide intermediate arithmetic.
pub const PRIME_128: u128 = 18446744069414584321;

/// `2^64 mod PRIME`: multiplying by this (mod `PRIME`) enters the
/// Montgomery domain used by the permutation.
pub const R_MOD_P: u64 = 4294967295;

/// `2^-64 mod PRIME`: multiplying by this (mod `PRIME`) leaves the
/// Montgomery domain. Equal to `PRIME - 2^32`, since `2^96 == -1 (mod PRIME)`.
pub const R_INV: u64 = 18446744065119617025;

/// A base field element, carried as one raw 64-bit word. Whether the word is
/// a canonical value or a Montgomery-domain value is determined by context;
/// the hash pipeline converts explicitly and never mixes the two.
#[derive(Debug, Clone, Copy, PartialEq, Eq, Structural)]
pub struct Belt(pub u64);

/// Recoverable failures of field operations outside the hash pipeline (the
/// pipeline itself never reports these: its malformed inputs are contract
/// violations, excluded by precondition rather than returned as errors).
#[derive(Debug, Clone, Copy, PartialEq, Eq, Structural)]
pub enum FieldError {
    /// No primitive root of the requested order exists in the field.
    OrderedRootError,
}

/// A raw word is "based" when it is the canonical representative of a field
/// element, i.e. already reduced below the modulus.
pub open spec fn based(x: u64) -> bool {
    x < PRIME
}

/// Runtime form of the canonical-range check.
pub fn based_check(x: u64) -> (r: bool)
    ensures
        r == based(x),
{
    x < PRIME
}

/// The Montgomery-domain image of a raw word: `x * 2^64 mod PRIME`.
pub open spec fn mont_of(x: u64) -> u64 {
    (((x as int) * (R_MOD_P as int)) % (PRIME as int)) as u64
}

/// What reducing a wide word out of the Montgomery domain yields:
/// `x * 2^-64 mod PRIME`, always canonical.
pub open spec fn mont_red_of(x: u128) -> u64 {
    (((x as int) * (R_INV as int)) % (PRIME as int)) as u64
}

/// Law: leaving the Montgomery domain inverts entering it — reducing the
/// image of a canonical element gives that element back.
pub proof fn lemma_mont_round_trip(x: u64)
    requires
        based(x),
    ensures
        mont_red_of(mont_of(x) as u128) == x,
{
    let p = PRIME as int;
    let r = R_MOD_P as int;
    let rinv = R_INV as int;
    let xi = x as int;
    vstd::arithmetic::div_mod::lemma_mul_mod_noop_left(xi * r, rinv, p);
    vstd::arithmetic::mul::lemma_mul_is_associative(xi, r, rinv);
    vstd::arithmetic::div_mod::lemma_mul_mod_noop_right(xi, r * rinv, p);
    assert(r * rinv % p == 1);
    vstd::arithmetic::div_mod::lemma_small_mod(x as nat, PRIME as nat);
}

/// Bring a raw word into the Montgomery domain.
pub fn montify(x: u64) -> (r: u64)
    ensures
        r == mont_of(x),
        based(r),
{
    proof {
        assert((x as int) * (R_MOD_P as int) <= 0xffffffffffffffff * 0xffffffff)
            by (nonlinear_arith)
            requires
                x <= 0xffffffffffffffffu64,
        ;
    }
    let wide: u128 = (x as u128) * (R_MOD_P as u128);
    (wide % PRIME_128) as u64
}

/// Reduce a wide intermediate word out of the Montgomery domain, yielding a
/// canonical field element.
pub fn mont_reduction(x: u128) -> (r: u64)
    ensures
        r == mont_red_of(x),
        based(r),
{
    let lo: u128 = x % PRIME_128;
    proof {
        assert((lo as int) * (R_INV as int) < (PRIME_128 as int) * (PRIME_128 as int))
            by (nonlinear_arith)
            requires
                lo < PRIME_128,
                R_INV < PRIME_128,
        ;
        assert((PRIME_128 as int) * (PRIME_128 as int) <= u128::MAX as int);
        vstd::arithmetic::div_mod::lemma_mul_mod_noop_left(x as int, R_INV as int, PRIME as int);
    }
    let wide: u128 = lo * (R_INV as u128);
    (wide % PRIME_128) as u64
}

} // verus!
