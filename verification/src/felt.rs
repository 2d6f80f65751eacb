//! Decomposition of 252-bit public-memory values, stored as eight
//! little-endian 32-bit words, into twenty-eight 9-bit limbs. The limbs are
//! the form in which a value enters the memory-value lookup relation and the
//! 9-bit range-check relation.

use vstd::prelude::*;
use vstd::arithmetic::div_mod::lemma_mod_bound;
use vstd::arithmetic::mul::lemma_mul_upper_bound;
use vstd::arithmetic::power2::{lemma2_to64, lemma_pow2_pos, lemma_pow2_unfold, pow2};

verus! {

pub const N_LIMBS: usize = 28;

/// Limb `k` of a 252-bit value: bits `9k .. 9k + 9` of the little-endian
/// word sequence, possibly spanning two adjacent words.
pub open spec fn limb_s(v: Seq<u32>, k: nat) -> int {
    let j = (9 * k / 32) as nat;
    let off = (9 * k % 32) as nat;
    let lo = v[j as int] as int / pow2(off) as int;
    let hi = if off > 23 {
        v[j + 1 as int] as int * pow2((32 - off) as nat) as int
    } else {
        0int
    };
    (lo + hi) % 512
}

/// The full limb decomposition of one value.
pub open spec fn limbs_s(v: Seq<u32>) -> Seq<u32> {
    Seq::new(28, |k: int| limb_s(v, k as nat) as u32)
}

pub proof fn lemma_limb_bound(v: Seq<u32>, k: nat)
    ensures
        0 <= limb_s(v, k) < 512,
{
    let j = (9 * k / 32) as nat;
    let off = (9 * k % 32) as nat;
    let lo = v[j as int] as int / pow2(off) as int;
    let hi = if off > 23 {
        v[j + 1 as int] as int * pow2((32 - off) as nat) as int
    } else {
        0int
    };
    lemma_mod_bound(lo + hi, 512);
}

/// `2^e` for word-level exponents.
fn pow2_u64(e: u32) -> (r: u64)
    requires
        e < 63,
    ensures
        r == pow2(e as nat),
        r >= 1,
{
    let mut p: u64 = 1;
    let mut i: u32 = 0;
    proof {
        lemma2_to64();
    }
    while i < e
        invariant
            i <= e,
            e < 63,
            p == pow2(i as nat),
            p >= 1,
        decreases e - i,
    {
        proof {
            lemma_pow2_unfold((i + 1) as nat);
            lemma_pow2_pos(i as nat);
            assert(pow2(63) == 0x8000000000000000) by {
                lemma2_to64_rest_helper();
            }
            lemma_pow2_strictly_increases_helper((i + 1) as nat, 63);
        }
        p = p * 2;
        i = i + 1;
    }
    p
}

proof fn lemma2_to64_rest_helper()
    ensures
        pow2(63) == 0x8000000000000000,
{
    vstd::arithmetic::power2::lemma2_to64_rest();
}

proof fn lemma_pow2_strictly_increases_helper(e1: nat, e2: nat)
    requires
        e1 < e2,
    ensures
        pow2(e1) < pow2(e2),
{
    vstd::arithmetic::power2::lemma_pow2_strictly_increases(e1, e2);
}

/// Split a 252-bit value into its twenty-eight 9-bit limbs.
pub fn split_f252(v: &[u32; 8]) -> (r: Vec<u32>)
    ensures
        r@ =~= limbs_s(v@),
        forall|k: int| 0 <= k < 28 ==> 0 <= #[trigger] r@[k] < 512,
{
    let mut r: Vec<u32> = Vec::new();
    let mut k: usize = 0;
    while k < N_LIMBS
        invariant
            k <= 28,
            r@.len() == k,
            forall|t: int| 0 <= t < k ==> #[trigger] r@[t] == limb_s(v@, t as nat) as u32,
            forall|t: int| 0 <= t < k ==> 0 <= #[trigger] r@[t] < 512,
        decreases 28 - k,
    {
        let bit = 9 * k;
        let j = bit / 32;
        let off = (bit % 32) as u32;
        let p = pow2_u64(off);
        let lo: u64 = (v[j] as u64) / p;
        let hi: u64 = if off > 23 {
            let q = pow2_u64(32 - off);
            proof {
                assert(j + 1 < 8);
                if 32 - off < 8 {
                    lemma_pow2_strictly_increases_helper((32 - off) as nat, 8);
                }
                assert(pow2(8) == 256) by {
                    lemma2_to64();
                }
                lemma_mul_upper_bound(v@[j as int + 1] as int, 0xffff_ffff, q as int, 256);
            }
            (v[j + 1] as u64) * q
        } else {
            0
        };
        let limb = ((lo + hi) % 512) as u32;
        proof {
            lemma_limb_bound(v@, k as nat);
            assert(limb as int == limb_s(v@, k as nat));
        }
        r.push(limb);
        k = k + 1;
    }
    r
}

} // verus!
