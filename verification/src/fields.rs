//! The base field (integers modulo the Mersenne prime `2^31 - 1`) and its
//! degree-four extension, used for soundness amplification: interaction
//! claims, drawn relation elements and the logup consistency sum all live in
//! the extension field.

use vstd::prelude::*;
use vstd::arithmetic::div_mod::{
    lemma_mod_bound, lemma_mul_mod_noop_left, lemma_mul_mod_noop_right, lemma_small_mod,
};
use vstd::arithmetic::mul::{lemma_mul_is_associative, lemma_mul_upper_bound};

verus! {

/// The Mersenne prime `2^31 - 1`, modulus of the base field.
pub const P: u32 = 0x7fff_ffff;

pub open spec fn m31_wf(a: int) -> bool {
    0 <= a < P
}

/// Addition modulo `P` of two reduced values, by conditional subtraction.
pub open spec fn m31_add_s(a: int, b: int) -> int {
    if a + b >= P {
        a + b - P
    } else {
        a + b
    }
}

/// Additive inverse modulo `P` of a reduced value.
pub open spec fn m31_neg_s(a: int) -> int {
    if a == 0 {
        0int
    } else {
        P - a
    }
}

pub open spec fn m31_sub_s(a: int, b: int) -> int {
    m31_add_s(a, m31_neg_s(b))
}

pub open spec fn m31_mul_s(a: int, b: int) -> int {
    (a * b) % (P as int)
}

/// Modular exponentiation, defined by repeated multiplication.
pub open spec fn m31_pow_s(b: int, e: nat) -> int
    decreases e,
{
    if e == 0 {
        1int
    } else {
        m31_mul_s(b, m31_pow_s(b, (e - 1) as nat))
    }
}

/// The multiplicative-inverse function of the base field: exponentiation by
/// `P - 2`. It sends zero to zero and every other reduced value to its
/// inverse.
pub open spec fn m31_inv_s(a: int) -> int {
    m31_pow_s(a, (P - 2) as nat)
}

pub fn m31_add(a: u32, b: u32) -> (r: u32)
    requires
        m31_wf(a as int),
        m31_wf(b as int),
    ensures
        r as int == m31_add_s(a as int, b as int),
        m31_wf(r as int),
{
    let s: u64 = a as u64 + b as u64;
    if s >= P as u64 {
        (s - P as u64) as u32
    } else {
        s as u32
    }
}

pub fn m31_neg(a: u32) -> (r: u32)
    requires
        m31_wf(a as int),
    ensures
        r as int == m31_neg_s(a as int),
        m31_wf(r as int),
{
    if a == 0 {
        0
    } else {
        P - a
    }
}

pub fn m31_sub(a: u32, b: u32) -> (r: u32)
    requires
        m31_wf(a as int),
        m31_wf(b as int),
    ensures
        r as int == m31_sub_s(a as int, b as int),
        m31_wf(r as int),
{
    m31_add(a, m31_neg(b))
}

pub fn m31_mul(a: u32, b: u32) -> (r: u32)
    requires
        m31_wf(a as int),
        m31_wf(b as int),
    ensures
        r as int == m31_mul_s(a as int, b as int),
        m31_wf(r as int),
{
    proof {
        lemma_mod_bound(a as int * b as int, P as int);
        lemma_mul_upper_bound(a as int, P as int - 1, b as int, P as int - 1);
    }
    ((a as u64 * b as u64) % (P as u64)) as u32
}

/// Reduction of an arbitrary machine word into the base field.
pub fn m31_reduce(a: u32) -> (r: u32)
    ensures
        r as int == a as int % (P as int),
        m31_wf(r as int),
{
    a % P
}

pub proof fn lemma_mul_s_bound(a: int, b: int)
    ensures
        0 <= m31_mul_s(a, b) < P,
{
    lemma_mod_bound(a * b, P as int);
}

/// Multiplication modulo `P` is associative.
pub proof fn lemma_mul_s_assoc(a: int, b: int, c: int)
    ensures
        m31_mul_s(m31_mul_s(a, b), c) == m31_mul_s(a, m31_mul_s(b, c)),
{
    lemma_mul_mod_noop_left(a * b, c, P as int);
    lemma_mul_is_associative(a, b, c);
    lemma_mul_mod_noop_right(a, b * c, P as int);
}

pub proof fn lemma_pow_s_bound(b: int, e: nat)
    ensures
        e > 0 ==> 0 <= m31_pow_s(b, e) < P,
{
    if e > 0 {
        lemma_mul_s_bound(b, m31_pow_s(b, (e - 1) as nat));
    }
}

/// Squaring the base halves the exponent: `b^(2k) == (b*b)^k` modulo `P`.
pub proof fn lemma_pow_s_even(b: int, k: nat)
    ensures
        m31_pow_s(b, 2 * k) == m31_pow_s(m31_mul_s(b, b), k),
    decreases k,
{
    if k > 0 {
        lemma_pow_s_even(b, (k - 1) as nat);
        assert(2 * k - 1 >= 1);
        assert(m31_pow_s(b, 2 * k) == m31_mul_s(b, m31_pow_s(b, (2 * k - 1) as nat)));
        assert(m31_pow_s(b, (2 * k - 1) as nat) == m31_mul_s(
            b,
            m31_pow_s(b, (2 * k - 2) as nat),
        ));
        lemma_mul_s_assoc(b, b, m31_pow_s(b, (2 * k - 2) as nat));
        assert(2 * k - 2 == 2 * ((k - 1) as nat));
        lemma_mul_mod_noop_left(b * b, m31_pow_s(m31_mul_s(b, b), (k - 1) as nat), P as int);
    }
}

/// Square-and-multiply exponentiation in the base field.
pub fn m31_pow(b: u32, e: u32) -> (r: u32)
    requires
        m31_wf(b as int),
    ensures
        r as int == m31_pow_s(b as int, e as nat),
        m31_wf(r as int),
{
    let mut acc: u32 = 1;
    let mut base: u32 = b;
    let mut ee: u32 = e;
    proof {
        if e > 0 {
            lemma_pow_s_bound(b as int, e as nat);
        }
        lemma_small_mod(m31_pow_s(b as int, e as nat) as nat, P as nat);
    }
    while ee > 0
        invariant
            m31_wf(acc as int),
            m31_wf(base as int),
            m31_mul_s(acc as int, m31_pow_s(base as int, ee as nat)) == m31_mul_s(
                1,
                m31_pow_s(b as int, e as nat),
            ),
        decreases ee,
    {
        let ghost acc0 = acc as int;
        let ghost base0 = base as int;
        let ghost ee0 = ee as nat;
        if ee % 2 == 1 {
            acc = m31_mul(acc, base);
        }
        let nb = m31_mul(base, base);
        proof {
            let k = (ee0 / 2) as nat;
            lemma_pow_s_even(base0, k);
            if ee0 % 2 == 1 {
                assert(ee0 == 2 * k + 1);
                assert(m31_pow_s(base0, ee0) == m31_mul_s(base0, m31_pow_s(base0, 2 * k)));
                lemma_mul_s_assoc(acc0, base0, m31_pow_s(base0, 2 * k));
                lemma_mul_mod_noop_left(
                    acc0 * base0,
                    m31_pow_s(m31_mul_s(base0, base0), k),
                    P as int,
                );
            } else {
                assert(ee0 == 2 * k);
            }
        }
        base = nb;
        ee = ee / 2;
    }
    proof {
        assert(m31_pow_s(base as int, 0) == 1);
        lemma_small_mod(acc as nat, P as nat);
    }
    acc
}

/// Multiplicative inverse in the base field, as exponentiation by `P - 2`;
/// zero is sent to zero.
pub fn m31_inv(a: u32) -> (r: u32)
    requires
        m31_wf(a as int),
    ensures
        r as int == m31_inv_s(a as int),
        m31_wf(r as int),
{
    m31_pow(a, P - 2)
}

} // verus!
