use cairo_air::fields::{m31_add, m31_inv, m31_mul, m31_neg, m31_pow, P};
use cairo_air::felt::split_f252;
use cairo_air::qm31::QM31;
use cairo_air::relations::RelationElements;
use cairo_air::channel::Channel;

#[test]
fn test_m31_arithmetic() {
    assert_eq!(P, 2147483647);
    assert_eq!(m31_add(P - 1, 1), 0);
    assert_eq!(m31_add(P - 1, 2), 1);
    assert_eq!(m31_neg(0), 0);
    assert_eq!(m31_neg(5), P - 5);
    assert_eq!(m31_mul(3, 5), 15);
    assert_eq!(m31_mul(P - 1, P - 1), 1); // (-1) * (-1)
    assert_eq!(m31_pow(2, 31), 1); // 2^31 = P + 1 = 1 mod P
}

#[test]
fn test_m31_inverse() {
    // The inverse of 2 is (P + 1) / 2 = 2^30.
    assert_eq!(m31_inv(2), 1 << 30);
    assert_eq!(m31_mul(m31_inv(2), 2), 1);
    assert_eq!(m31_mul(m31_inv(12345), 12345), 1);
    assert_eq!(m31_inv(1), 1);
    assert_eq!(m31_inv(0), 0);
}

#[test]
fn test_qm31_field() {
    let x = QM31 { a: 1, b: 2, c: 3, d: 4 };
    let y = QM31 { a: 5, b: 6, c: 7, d: 8 };
    assert_eq!(x.add(&y), QM31 { a: 6, b: 8, c: 10, d: 12 });
    assert_eq!(x.add(&x.neg()), QM31::zero());
    assert_eq!(x.mul(&QM31::one()), x);
    // The inverse function really inverts.
    assert_eq!(x.inverse().mul(&x), QM31::one());
    assert_eq!(y.mul(&y.inverse()), QM31::one());
    assert_eq!(QM31::zero().inverse(), QM31::zero());
}

#[test]
fn test_split_f252() {
    // Bit 0 set: limb 0 is 1, the rest are 0.
    let limbs = split_f252(&[1, 0, 0, 0, 0, 0, 0, 0]);
    assert_eq!(limbs.len(), 28);
    assert_eq!(limbs[0], 1);
    assert!(limbs[1..].iter().all(|&l| l == 0));
    // Bit 9 set: limb 1 is 1.
    let limbs = split_f252(&[0x200, 0, 0, 0, 0, 0, 0, 0]);
    assert_eq!(limbs[1], 1);
    // Bit 31 set: limb 3 covers bits 27..36, so it holds 2^4.
    let limbs = split_f252(&[0x8000_0000, 0, 0, 0, 0, 0, 0, 0]);
    assert_eq!(limbs[3], 16);
    // A limb spanning a word boundary: bits 27..36 of (word0 = 2^27,
    // word1 = 1) give limb 3 = 1 + 2^5.
    let limbs = split_f252(&[0x0800_0000, 1, 0, 0, 0, 0, 0, 0]);
    assert_eq!(limbs[3], 1 + 32);
    // Every limb is below 2^9.
    let limbs = split_f252(&[!0, !0, !0, !0, !0, !0, !0, !0]);
    assert!(limbs.iter().all(|&l| l < 512));
}

#[test]
fn test_combine_degenerate_elements() {
    // With z = 0 and alpha = 1 the combination of a single-entry tuple is
    // the entry itself.
    let e = RelationElements { z: QM31::zero(), alpha: QM31::one() };
    assert_eq!(e.combine(&vec![5]), QM31::from_m31(5));
    // With two entries it is their sum.
    assert_eq!(e.combine(&vec![5, 9]), QM31::from_m31(14));
}

#[test]
fn test_channel_draws_advance_state() {
    let mut ch = Channel::new();
    ch.mix_u32(7);
    let a = ch.draw_m31();
    let b = ch.draw_m31();
    assert_ne!(a, b);
    assert!(a < P && b < P);
    // Mixing different words gives different digests.
    let mut c1 = Channel::new();
    c1.mix_u32(1);
    let mut c2 = Channel::new();
    c2.mix_u32(2);
    assert_ne!(c1.digest(), c2.digest());
}
