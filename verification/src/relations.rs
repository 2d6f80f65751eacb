//! Relation elements: the transcript-derived randomness of one lookup
//! relation, and the combination of a tuple of base-field values into a
//! single extension-field element under that randomness.

use vstd::prelude::*;
use crate::channel::{draw_words_s, drawn_q4_s, lemma_draw_words_add, Channel};
use crate::fields::P;
use crate::qm31::{qadd_s, qmul_s, qone_s, qsub_s, qv, qzero_s, qm31_wf, Q4, QM31};

verus! {

/// The randomness of one lookup relation: a shift `z` and a power base
/// `alpha`, both drawn from the transcript.
#[derive(Clone, Copy, PartialEq, Eq, Structural, Debug)]
pub struct RelationElements {
    pub z: QM31,
    pub alpha: QM31,
}

pub open spec fn rel_wf(e: RelationElements) -> bool {
    qm31_wf(e.z) && qm31_wf(e.alpha)
}

/// Repeated extension-field multiplication.
pub open spec fn qpow_s(a: Q4, e: nat) -> Q4
    decreases e,
{
    if e == 0 {
        qone_s()
    } else {
        qmul_s(qpow_s(a, (e - 1) as nat), a)
    }
}

/// Embedding of a machine word into the extension field, reduced into the
/// base field first.
pub open spec fn embed_s(t: u32) -> Q4 {
    ((t as int) % (P as int), 0int, 0int, 0int)
}

/// The alpha-weighted sum of a tuple: `sum_i alpha^i * t_i`.
pub open spec fn dot_s(alpha: Q4, ts: Seq<u32>) -> Q4
    decreases ts.len(),
{
    if ts.len() == 0 {
        qzero_s()
    } else {
        qadd_s(
            dot_s(alpha, ts.drop_last()),
            qmul_s(qpow_s(alpha, (ts.len() - 1) as nat), embed_s(ts.last())),
        )
    }
}

/// The combined value of a tuple under drawn relation elements:
/// `sum_i alpha^i * t_i - z`.
pub open spec fn combine_s(z: Q4, alpha: Q4, ts: Seq<u32>) -> Q4 {
    qsub_s(dot_s(alpha, ts), z)
}

impl RelationElements {
    /// Draw the relation's randomness from the transcript: first `z`, then
    /// `alpha`, eight base-field draws in all.
    pub fn draw(channel: &mut Channel) -> (r: RelationElements)
        ensures
            qv(r.z) == drawn_q4_s(old(channel)@, 0),
            qv(r.alpha) == drawn_q4_s(old(channel)@, 4),
            final(channel)@ == draw_words_s(old(channel)@, 8),
            rel_wf(r),
    {
        let ghost s0 = channel@;
        let z = channel.draw_qm31();
        proof {
            lemma_draw_words_add(s0, 4, 0);
            lemma_draw_words_add(s0, 4, 1);
            lemma_draw_words_add(s0, 4, 2);
            lemma_draw_words_add(s0, 4, 3);
            lemma_draw_words_add(s0, 4, 4);
        }
        let alpha = channel.draw_qm31();
        RelationElements { z, alpha }
    }

    /// Combine a tuple of machine words into one extension-field value.
    pub fn combine(&self, tuple: &Vec<u32>) -> (r: QM31)
        requires
            rel_wf(*self),
        ensures
            qv(r) == combine_s(qv(self.z), qv(self.alpha), tuple@),
            qm31_wf(r),
    {
        let mut acc = QM31::zero();
        let mut apow = QM31::one();
        let mut i: usize = 0;
        proof {
            assert(tuple@.take(0) =~= Seq::<u32>::empty());
        }
        while i < tuple.len()
            invariant
                rel_wf(*self),
                i <= tuple.len(),
                qv(acc) == dot_s(qv(self.alpha), tuple@.take(i as int)),
                qv(apow) == qpow_s(qv(self.alpha), i as nat),
                qm31_wf(acc),
                qm31_wf(apow),
            decreases tuple.len() - i,
        {
            let t = tuple[i];
            let term = apow.mul(&QM31::from_m31(t % P));
            acc = acc.add(&term);
            apow = apow.mul(&self.alpha);
            proof {
                assert(tuple@.take(i as int + 1).drop_last() =~= tuple@.take(i as int));
                assert(tuple@.take(i as int + 1).last() == tuple@[i as int]);
                assert((t % P) as int == (tuple@[i as int] as int) % (P as int));
            }
            i = i + 1;
        }
        proof {
            assert(tuple@.take(tuple.len() as int) =~= tuple@);
        }
        acc.sub(&self.z)
    }
}

} // verus!
