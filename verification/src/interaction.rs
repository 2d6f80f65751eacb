//! Interaction-stage records: the relation elements drawn once per lookup
//! relation, and the aggregated interaction claim holding each
//! sub-component's claimed lookup sum in the extension field.

use vstd::prelude::*;
use crate::channel::{
    draw_words_s, drawn_q4_s, drawn_s, lemma_draw_words_add, qm31_words_s, Channel,
};
use crate::qm31::{qm31_wf, qv, QM31};
use crate::relations::{rel_wf, RelationElements};

verus! {

/// The transcript-derived randomness of every lookup relation, drawn in a
/// fixed order, exactly once, after the base-trace commitment.
#[derive(Clone, Copy, PartialEq, Eq, Structural, Debug)]
pub struct CairoInteractionElements {
    pub memory_addr_to_id_lookup: RelationElements,
    pub memory_id_to_value_lookup: RelationElements,
    pub range9_9_lookup: RelationElements,
}

pub open spec fn elements_wf(e: CairoInteractionElements) -> bool {
    rel_wf(e.memory_addr_to_id_lookup) && rel_wf(e.memory_id_to_value_lookup) && rel_wf(
        e.range9_9_lookup,
    )
}

/// Drawing a relation's elements from history `s` shifted by `m` prior
/// draws reads the draws at absolute positions `m + k`.
proof fn lemma_drawn_q4_shift(s: Seq<u32>, m: nat, k: nat)
    ensures
        drawn_q4_s(draw_words_s(s, m), k) == drawn_q4_s(s, (m + k) as nat),
{
    lemma_draw_words_add(s, m, k);
    lemma_draw_words_add(s, m, (k + 1) as nat);
    lemma_draw_words_add(s, m, (k + 2) as nat);
    lemma_draw_words_add(s, m, (k + 3) as nat);
}

impl CairoInteractionElements {
    /// Draw one relation-element set per lookup relation, in the fixed
    /// order: memory address-to-id, memory id-to-value, 9-bit range-check.
    pub fn draw(channel: &mut Channel) -> (r: CairoInteractionElements)
        ensures
            qv(r.memory_addr_to_id_lookup.z) == drawn_q4_s(old(channel)@, 0),
            qv(r.memory_addr_to_id_lookup.alpha) == drawn_q4_s(old(channel)@, 4),
            qv(r.memory_id_to_value_lookup.z) == drawn_q4_s(old(channel)@, 8),
            qv(r.memory_id_to_value_lookup.alpha) == drawn_q4_s(old(channel)@, 12),
            qv(r.range9_9_lookup.z) == drawn_q4_s(old(channel)@, 16),
            qv(r.range9_9_lookup.alpha) == drawn_q4_s(old(channel)@, 20),
            final(channel)@ == draw_words_s(old(channel)@, 24),
            elements_wf(r),
    {
        let ghost s0 = channel@;
        let memory_addr_to_id_lookup = RelationElements::draw(channel);
        proof {
            lemma_drawn_q4_shift(s0, 8, 0);
            lemma_drawn_q4_shift(s0, 8, 4);
            lemma_draw_words_add(s0, 8, 8);
        }
        let memory_id_to_value_lookup = RelationElements::draw(channel);
        proof {
            lemma_drawn_q4_shift(s0, 16, 0);
            lemma_drawn_q4_shift(s0, 16, 4);
            lemma_draw_words_add(s0, 16, 8);
        }
        let range9_9_lookup = RelationElements::draw(channel);
        CairoInteractionElements { memory_addr_to_id_lookup, memory_id_to_value_lookup, range9_9_lookup }
    }
}

/// One sub-component's interaction-stage public record: its claimed lookup
/// sum in the extension field.
#[derive(Clone, Copy, PartialEq, Eq, Structural, Debug)]
pub struct SubInteractionClaim {
    pub claimed_sum: QM31,
}

/// The aggregated interaction claim, one record per sub-component instance,
/// in the same fixed enumeration order as the claim aggregator.
#[derive(Debug)]
pub struct CairoInteractionClaim {
    pub ret: Vec<SubInteractionClaim>,
    pub range_check_builtin: SubInteractionClaim,
    pub memory_addr_to_id: SubInteractionClaim,
    pub memory_id_to_value: SubInteractionClaim,
    pub range_check9_9: SubInteractionClaim,
}

pub open spec fn ic_wf(ic: CairoInteractionClaim) -> bool {
    &&& forall|i: int| 0 <= i < ic.ret@.len() ==> qm31_wf(#[trigger] ic.ret@[i].claimed_sum)
    &&& qm31_wf(ic.range_check_builtin.claimed_sum)
    &&& qm31_wf(ic.memory_addr_to_id.claimed_sum)
    &&& qm31_wf(ic.memory_id_to_value.claimed_sum)
    &&& qm31_wf(ic.range_check9_9.claimed_sum)
}

/// Words the return-opcode interaction claims contribute to the transcript.
pub open spec fn ret_ic_words_s(rs: Seq<SubInteractionClaim>) -> Seq<u32>
    decreases rs.len(),
{
    if rs.len() == 0 {
        Seq::<u32>::empty()
    } else {
        ret_ic_words_s(rs.drop_last()) + qm31_words_s(rs.last().claimed_sum)
    }
}

/// The transcript encoding of the interaction claim: every sub-component's
/// claimed sum, in the fixed enumeration order.
pub open spec fn ic_words_s(ic: CairoInteractionClaim) -> Seq<u32> {
    ret_ic_words_s(ic.ret@) + qm31_words_s(ic.range_check_builtin.claimed_sum) + qm31_words_s(
        ic.memory_addr_to_id.claimed_sum,
    ) + qm31_words_s(ic.memory_id_to_value.claimed_sum) + qm31_words_s(
        ic.range_check9_9.claimed_sum,
    )
}

impl CairoInteractionClaim {
    /// Absorb every sub-component interaction claim, in the fixed order.
    pub fn mix_into(&self, channel: &mut Channel)
        ensures
            final(channel)@ == old(channel)@ + ic_words_s(*self),
    {
        let ghost s0 = channel@;
        let mut i: usize = 0;
        proof {
            assert(self.ret@.take(0) =~= Seq::<SubInteractionClaim>::empty());
            assert(s0 + ret_ic_words_s(self.ret@.take(0)) =~= s0);
        }
        while i < self.ret.len()
            invariant
                i <= self.ret.len(),
                channel@ == s0 + ret_ic_words_s(self.ret@.take(i as int)),
            decreases self.ret.len() - i,
        {
            channel.mix_qm31(&self.ret[i].claimed_sum);
            proof {
                assert(self.ret@.take(i as int + 1).drop_last() =~= self.ret@.take(i as int));
                assert(self.ret@.take(i as int + 1).last() == self.ret@[i as int]);
                assert(channel@ =~= s0 + ret_ic_words_s(self.ret@.take(i as int + 1)));
            }
            i = i + 1;
        }
        channel.mix_qm31(&self.range_check_builtin.claimed_sum);
        channel.mix_qm31(&self.memory_addr_to_id.claimed_sum);
        channel.mix_qm31(&self.memory_id_to_value.claimed_sum);
        channel.mix_qm31(&self.range_check9_9.claimed_sum);
        proof {
            assert(self.ret@.take(self.ret.len() as int) =~= self.ret@);
            assert(channel@ =~= s0 + ic_words_s(*self));
        }
    }
}

} // verus!
