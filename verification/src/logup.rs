//! The global logup consistency check: the claimed lookup sums of every
//! wired sub-component, together with the public-memory contributions, must
//! add to zero in the extension field. The verifier rejects on failure; an
//! honest prover satisfies it by construction.

use vstd::prelude::*;
use crate::claims::CairoClaim;
use crate::felt::{limbs_s, split_f252};
use crate::interaction::{
    elements_wf, ic_wf, CairoInteractionClaim, CairoInteractionElements, SubInteractionClaim,
};
use crate::qm31::{
    lemma_qadd_assoc, lemma_qadd_comm, lemma_qadd_neg, lemma_qadd_zero, lemma_qsum_concat,
    lemma_qsum_wf, qadd_s, qinv_s, qseq_wf, qsum_s, qv, qwf, qzero_s, qm31_wf, Q4, QM31,
};
use crate::relations::{combine_s, RelationElements};

verus! {

/// The lookup tuple of one memory entry: its address followed by the
/// twenty-eight 9-bit limbs of its value.
pub open spec fn mem_tuple_s(addr: u32, v: Seq<u32>) -> Seq<u32> {
    seq![addr] + limbs_s(v)
}

/// The logup contribution of one memory entry under the memory id-to-value
/// relation elements: the inverse of its combined tuple.
#[verifier::opaque]
pub open spec fn mem_term_s(e: RelationElements, addr: u32, v: Seq<u32>) -> Q4 {
    qinv_s(combine_s(qv(e.z), qv(e.alpha), mem_tuple_s(addr, v)))
}

/// The contributions of a list of memory entries, in order.
pub open spec fn mem_terms_s(e: RelationElements, pm: Seq<(u32, [u32; 8])>) -> Seq<Q4> {
    Seq::new(pm.len(), |i: int| mem_term_s(e, pm[i].0, pm[i].1@))
}

/// The logup contribution of one 9-bit range-checked pair.
#[verifier::opaque]
pub open spec fn rc_term_s(e: RelationElements, a: u32, b: u32) -> Q4 {
    qinv_s(combine_s(qv(e.z), qv(e.alpha), seq![a, b]))
}

pub open spec fn rc_terms_s(e: RelationElements, prs: Seq<(u32, u32)>) -> Seq<Q4> {
    Seq::new(prs.len(), |i: int| rc_term_s(e, prs[i].0, prs[i].1))
}

/// The claimed sums of the return-opcode instances, as ghost values.
pub open spec fn ret_cs_terms_s(rs: Seq<SubInteractionClaim>) -> Seq<Q4> {
    Seq::new(rs.len(), |i: int| qv(rs[i].claimed_sum))
}

pub proof fn lemma_mem_terms_wf(e: RelationElements, pm: Seq<(u32, [u32; 8])>)
    ensures
        qseq_wf(mem_terms_s(e, pm)),
{
    reveal(mem_term_s);
}

pub proof fn lemma_rc_terms_wf(e: RelationElements, prs: Seq<(u32, u32)>)
    ensures
        qseq_wf(rc_terms_s(e, prs)),
{
    reveal(rc_term_s);
}

/// The total logup sum: public-memory contributions, then every wired
/// sub-component's claimed sum, in the fixed order.
pub open spec fn total_sum_s(
    c: CairoClaim,
    e: CairoInteractionElements,
    ic: CairoInteractionClaim,
) -> Q4 {
    let pub_sum = qsum_s(mem_terms_s(e.memory_id_to_value_lookup, c.public_memory@));
    qadd_s(
        qadd_s(
            qadd_s(
                qadd_s(
                    qadd_s(pub_sum, qv(ic.range_check9_9.claimed_sum)),
                    qsum_s(ret_cs_terms_s(ic.ret@)),
                ),
                qv(ic.range_check_builtin.claimed_sum),
            ),
            qv(ic.memory_addr_to_id.claimed_sum),
        ),
        qv(ic.memory_id_to_value.claimed_sum),
    )
}

/// Build the lookup tuple of one memory entry.
pub fn mem_tuple(addr: u32, v: &[u32; 8]) -> (r: Vec<u32>)
    ensures
        r@ == mem_tuple_s(addr, v@),
{
    let mut r: Vec<u32> = Vec::new();
    r.push(addr);
    let mut limbs = split_f252(v);
    r.append(&mut limbs);
    proof {
        assert(r@ =~= mem_tuple_s(addr, v@));
    }
    r
}

/// Sum the logup contributions of a list of memory entries.
pub fn sum_mem_terms(e: &RelationElements, pm: &Vec<(u32, [u32; 8])>) -> (r: QM31)
    requires
        crate::relations::rel_wf(*e),
    ensures
        qv(r) == qsum_s(mem_terms_s(*e, pm@)),
        qm31_wf(r),
{
    let mut acc = QM31::zero();
    let mut i: usize = 0;
    proof {
        assert(mem_terms_s(*e, pm@.take(0)) =~= Seq::<Q4>::empty());
    }
    while i < pm.len()
        invariant
            crate::relations::rel_wf(*e),
            i <= pm.len(),
            qv(acc) == qsum_s(mem_terms_s(*e, pm@.take(i as int))),
            qm31_wf(acc),
        decreases pm.len() - i,
    {
        let entry = pm[i];
        let tuple = mem_tuple(entry.0, &entry.1);
        let term = e.combine(&tuple).inverse();
        acc = acc.add(&term);
        proof {
            reveal(mem_term_s);
            assert(mem_terms_s(*e, pm@.take(i as int + 1)).drop_last() =~= mem_terms_s(
                *e,
                pm@.take(i as int),
            ));
            assert(mem_terms_s(*e, pm@.take(i as int + 1)).last() == mem_term_s(
                *e,
                pm@[i as int].0,
                pm@[i as int].1@,
            ));
        }
        i = i + 1;
    }
    proof {
        assert(pm@.take(pm.len() as int) =~= pm@);
    }
    acc
}

/// Sum the logup contributions of a list of 9-bit range-checked pairs.
pub fn sum_rc_terms(e: &RelationElements, prs: &Vec<(u32, u32)>) -> (r: QM31)
    requires
        crate::relations::rel_wf(*e),
    ensures
        qv(r) == qsum_s(rc_terms_s(*e, prs@)),
        qm31_wf(r),
{
    let mut acc = QM31::zero();
    let mut i: usize = 0;
    proof {
        assert(rc_terms_s(*e, prs@.take(0)) =~= Seq::<Q4>::empty());
    }
    while i < prs.len()
        invariant
            crate::relations::rel_wf(*e),
            i <= prs.len(),
            qv(acc) == qsum_s(rc_terms_s(*e, prs@.take(i as int))),
            qm31_wf(acc),
        decreases prs.len() - i,
    {
        let pair = prs[i];
        let mut tuple: Vec<u32> = Vec::new();
        tuple.push(pair.0);
        tuple.push(pair.1);
        proof {
            assert(tuple@ =~= seq![prs@[i as int].0, prs@[i as int].1]);
        }
        let term = e.combine(&tuple).inverse();
        acc = acc.add(&term);
        proof {
            reveal(rc_term_s);
            assert(rc_terms_s(*e, prs@.take(i as int + 1)).drop_last() =~= rc_terms_s(
                *e,
                prs@.take(i as int),
            ));
            assert(rc_terms_s(*e, prs@.take(i as int + 1)).last() == rc_term_s(
                *e,
                prs@[i as int].0,
                prs@[i as int].1,
            ));
        }
        i = i + 1;
    }
    proof {
        assert(prs@.take(prs.len() as int) =~= prs@);
    }
    acc
}

/// Sum the claimed sums of the return-opcode instances.
fn sum_ret_claimed(rs: &Vec<SubInteractionClaim>) -> (r: QM31)
    requires
        forall|i: int| 0 <= i < rs@.len() ==> qm31_wf(#[trigger] rs@[i].claimed_sum),
    ensures
        qv(r) == qsum_s(ret_cs_terms_s(rs@)),
        qm31_wf(r),
{
    let mut acc = QM31::zero();
    let mut i: usize = 0;
    proof {
        assert(ret_cs_terms_s(rs@.take(0)) =~= Seq::<Q4>::empty());
    }
    while i < rs.len()
        invariant
            forall|k: int| 0 <= k < rs@.len() ==> qm31_wf(#[trigger] rs@[k].claimed_sum),
            i <= rs.len(),
            qv(acc) == qsum_s(ret_cs_terms_s(rs@.take(i as int))),
            qm31_wf(acc),
        decreases rs.len() - i,
    {
        acc = acc.add(&rs[i].claimed_sum);
        proof {
            assert(ret_cs_terms_s(rs@.take(i as int + 1)).drop_last() =~= ret_cs_terms_s(
                rs@.take(i as int),
            ));
            assert(ret_cs_terms_s(rs@.take(i as int + 1)).last() == qv(rs@[i as int].claimed_sum));
        }
        i = i + 1;
    }
    proof {
        assert(rs@.take(rs.len() as int) =~= rs@);
    }
    acc
}

/// The logup consistency check: true exactly when the total sum vanishes.
pub fn lookup_sum_valid(
    claim: &CairoClaim,
    elements: &CairoInteractionElements,
    interaction_claim: &CairoInteractionClaim,
) -> (r: bool)
    requires
        elements_wf(*elements),
        ic_wf(*interaction_claim),
    ensures
        r == (total_sum_s(*claim, *elements, *interaction_claim) == qzero_s()),
{
    let mut sum = sum_mem_terms(&elements.memory_id_to_value_lookup, &claim.public_memory);
    sum = sum.add(&interaction_claim.range_check9_9.claimed_sum);
    let ret_sum = sum_ret_claimed(&interaction_claim.ret);
    sum = sum.add(&ret_sum);
    sum = sum.add(&interaction_claim.range_check_builtin.claimed_sum);
    sum = sum.add(&interaction_claim.memory_addr_to_id.claimed_sum);
    sum = sum.add(&interaction_claim.memory_id_to_value.claimed_sum);
    let zero = QM31::zero();
    sum == zero
}

/// Exchanging the last two of three added terms does not change the sum.
proof fn lemma_qadd_swap(x: Q4, d: Q4, y: Q4)
    requires
        qwf(x),
        qwf(d),
        qwf(y),
    ensures
        qadd_s(qadd_s(x, d), y) == qadd_s(qadd_s(x, y), d),
{
    lemma_qadd_assoc(x, d, y);
    lemma_qadd_comm(d, y);
    lemma_qadd_assoc(x, y, d);
}

proof fn lemma_qseq_wf_concat(a: Seq<Q4>, b: Seq<Q4>)
    requires
        qseq_wf(a),
        qseq_wf(b),
    ensures
        qseq_wf(a + b),
{
    assert forall|i: int| 0 <= i < (a + b).len() implies qwf(#[trigger] (a + b)[i]) by {
        if i < a.len() {
            assert((a + b)[i] == a[i]);
        } else {
            assert((a + b)[i] == b[i - a.len()]);
        }
    }
}

/// An honest proving run satisfies the consistency check: when every
/// consumer's claimed sum covers exactly its registered uses, the memory
/// table supplies exactly what was registered (public memory included), and
/// the range-check table supplies exactly the limb pairs the memory table
/// registered, all contributions cancel.
/// Splitting a registered list into its consumer segments splits its sum.
proof fn lemma_mem_terms_split(
    el: RelationElements,
    p: Seq<(u32, [u32; 8])>,
    a2: Seq<(u32, [u32; 8])>,
    b2: Seq<(u32, [u32; 8])>,
)
    ensures
        qsum_s(mem_terms_s(el, p + a2 + b2)) == qadd_s(
            qadd_s(qsum_s(mem_terms_s(el, p)), qsum_s(mem_terms_s(el, a2))),
            qsum_s(mem_terms_s(el, b2)),
        ),
{
    let mtp = mem_terms_s(el, p);
    let mta = mem_terms_s(el, a2);
    let mtb = mem_terms_s(el, b2);
    lemma_mem_terms_wf(el, p);
    lemma_mem_terms_wf(el, a2);
    lemma_mem_terms_wf(el, b2);
    assert(mem_terms_s(el, p + a2 + b2) =~= (mtp + mta) + mtb);
    lemma_qseq_wf_concat(mtp, mta);
    lemma_qsum_concat(mtp, mta);
    lemma_qsum_concat(mtp + mta, mtb);
}

/// The abstract cancellation pattern of an honest run: consumers positive,
/// suppliers negative, everything cancels.
proof fn lemma_cancel_pattern(p: Q4, a: Q4, b: Q4, rc: Q4)
    requires
        qwf(p),
        qwf(a),
        qwf(b),
        qwf(rc),
    ensures
        qadd_s(
            qadd_s(
                qadd_s(qadd_s(qadd_s(p, crate::qm31::qneg_s(rc)), a), b),
                qzero_s(),
            ),
            qadd_s(rc, crate::qm31::qneg_s(qadd_s(qadd_s(p, a), b))),
        ) == qzero_s(),
{
    let nrc = crate::qm31::qneg_s(rc);
    let s = qadd_s(qadd_s(p, a), b);
    let ns = crate::qm31::qneg_s(s);
    lemma_qadd_swap(p, nrc, a);
    lemma_qadd_swap(qadd_s(p, a), nrc, b);
    lemma_qadd_zero(qadd_s(s, nrc));
    assert(qadd_s(qadd_s(qadd_s(qadd_s(p, nrc), a), b), qzero_s()) == qadd_s(s, nrc));
    lemma_qadd_assoc(s, nrc, qadd_s(rc, ns));
    lemma_qadd_assoc(nrc, rc, ns);
    lemma_qadd_comm(nrc, rc);
    lemma_qadd_neg(rc);
    lemma_qadd_zero(ns);
    lemma_qadd_neg(s);
}

#[verifier::rlimit(100)]
pub proof fn lemma_honest_total(
    c: CairoClaim,
    e: CairoInteractionElements,
    ic: CairoInteractionClaim,
    ret_uses: Seq<(u32, [u32; 8])>,
    rcb_uses: Seq<(u32, [u32; 8])>,
    rc_pairs: Seq<(u32, u32)>,
)
    requires
        ic.ret@.len() == 1,
        qv(ic.ret@[0].claimed_sum) == qsum_s(mem_terms_s(e.memory_id_to_value_lookup, ret_uses)),
        qv(ic.range_check_builtin.claimed_sum) == qsum_s(
            mem_terms_s(e.memory_id_to_value_lookup, rcb_uses),
        ),
        qv(ic.memory_addr_to_id.claimed_sum) == qzero_s(),
        qv(ic.memory_id_to_value.claimed_sum) == crate::qm31::qsub_s(
            qsum_s(rc_terms_s(e.range9_9_lookup, rc_pairs)),
            qsum_s(
                mem_terms_s(
                    e.memory_id_to_value_lookup,
                    c.public_memory@ + ret_uses + rcb_uses,
                ),
            ),
        ),
        qv(ic.range_check9_9.claimed_sum) == crate::qm31::qneg_s(
            qsum_s(rc_terms_s(e.range9_9_lookup, rc_pairs)),
        ),
    ensures
        total_sum_s(c, e, ic) == qzero_s(),
{
    let el = e.memory_id_to_value_lookup;
    let pub_sum = qsum_s(mem_terms_s(el, c.public_memory@));
    let a = qsum_s(mem_terms_s(el, ret_uses));
    let b = qsum_s(mem_terms_s(el, rcb_uses));
    let rc = qsum_s(rc_terms_s(e.range9_9_lookup, rc_pairs));
    lemma_mem_terms_wf(el, c.public_memory@);
    lemma_mem_terms_wf(el, ret_uses);
    lemma_mem_terms_wf(el, rcb_uses);
    lemma_rc_terms_wf(e.range9_9_lookup, rc_pairs);
    lemma_qsum_wf(mem_terms_s(el, c.public_memory@));
    lemma_qsum_wf(mem_terms_s(el, ret_uses));
    lemma_qsum_wf(mem_terms_s(el, rcb_uses));
    lemma_qsum_wf(rc_terms_s(e.range9_9_lookup, rc_pairs));
    // The registered list splits into its three consumer segments.
    lemma_mem_terms_split(el, c.public_memory@, ret_uses, rcb_uses);
    // The single return-opcode instance contributes its claimed sum.
    assert(ret_cs_terms_s(ic.ret@) =~= seq![qv(ic.ret@[0].claimed_sum)]);
    assert(seq![qv(ic.ret@[0].claimed_sum)].drop_last() =~= Seq::<Q4>::empty());
    lemma_qadd_zero(a);
    assert(qsum_s(Seq::<Q4>::empty()) == qzero_s());
    assert(qsum_s(ret_cs_terms_s(ic.ret@)) == qadd_s(
        qzero_s(),
        qv(ic.ret@[0].claimed_sum),
    ));
    assert(qsum_s(ret_cs_terms_s(ic.ret@)) == a);
    // Everything cancels.
    lemma_cancel_pattern(pub_sum, a, b, rc);
}

/// Shifting one element of a sum by a delta shifts the sum by that delta.
proof fn lemma_qsum_update(s: Seq<Q4>, s2: Seq<Q4>, j: int, delta: Q4)
    requires
        qseq_wf(s),
        qwf(delta),
        0 <= j < s.len(),
        s2.len() == s.len(),
        s2[j] == qadd_s(s[j], delta),
        forall|k: int| 0 <= k < s.len() && k != j ==> s2[k] == #[trigger] s[k],
    ensures
        qsum_s(s2) == qadd_s(qsum_s(s), delta),
    decreases s.len(),
{
    assert(qseq_wf(s.drop_last()));
    lemma_qsum_wf(s.drop_last());
    if j == s.len() - 1 {
        assert(s2.drop_last() =~= s.drop_last());
        lemma_qadd_assoc(qsum_s(s.drop_last()), s.last(), delta);
    } else {
        assert(s2.drop_last().len() == s.drop_last().len());
        assert(s2.drop_last()[j] == qadd_s(s.drop_last()[j], delta));
        lemma_qsum_update(s.drop_last(), s2.drop_last(), j, delta);
        assert(s2.last() == s.last());
        lemma_qadd_swap(qsum_s(s.drop_last()), delta, s.last());
    }
}

/// Tamper sensitivity for a return-opcode instance: if the total sum
/// vanishes, shifting the claimed sum of any one instance by any nonzero
/// delta makes the check fail.
pub proof fn lemma_logup_tamper_ret(
    c: CairoClaim,
    e: CairoInteractionElements,
    ic: CairoInteractionClaim,
    ic2: CairoInteractionClaim,
    delta: Q4,
    j: int,
)
    requires
        ic_wf(ic),
        qwf(delta),
        delta != qzero_s(),
        total_sum_s(c, e, ic) == qzero_s(),
        0 <= j < ic.ret@.len(),
        ic2.ret@.len() == ic.ret@.len(),
        qv(ic2.ret@[j].claimed_sum) == qadd_s(qv(ic.ret@[j].claimed_sum), delta),
        forall|k: int| 0 <= k < ic.ret@.len() && k != j ==> ic2.ret@[k] == #[trigger] ic.ret@[k],
        ic2.range_check_builtin == ic.range_check_builtin,
        ic2.memory_addr_to_id == ic.memory_addr_to_id,
        ic2.memory_id_to_value == ic.memory_id_to_value,
        ic2.range_check9_9 == ic.range_check9_9,
    ensures
        total_sum_s(c, e, ic2) != qzero_s(),
{
    let pub_sum = qsum_s(mem_terms_s(e.memory_id_to_value_lookup, c.public_memory@));
    let r99 = qv(ic.range_check9_9.claimed_sum);
    let rts = qsum_s(ret_cs_terms_s(ic.ret@));
    lemma_mem_terms_wf(e.memory_id_to_value_lookup, c.public_memory@);
    lemma_qsum_wf(mem_terms_s(e.memory_id_to_value_lookup, c.public_memory@));
    assert(qseq_wf(ret_cs_terms_s(ic.ret@)));
    lemma_qsum_wf(ret_cs_terms_s(ic.ret@));
    assert(ret_cs_terms_s(ic2.ret@)[j] == qadd_s(ret_cs_terms_s(ic.ret@)[j], delta));
    lemma_qsum_update(ret_cs_terms_s(ic.ret@), ret_cs_terms_s(ic2.ret@), j, delta);
    lemma_qadd_assoc(qadd_s(pub_sum, r99), rts, delta);
    lemma_qadd_swap(
        qadd_s(qadd_s(pub_sum, r99), rts),
        delta,
        qv(ic.range_check_builtin.claimed_sum),
    );
    lemma_qadd_swap(
        qadd_s(qadd_s(qadd_s(pub_sum, r99), rts), qv(ic.range_check_builtin.claimed_sum)),
        delta,
        qv(ic.memory_addr_to_id.claimed_sum),
    );
    lemma_qadd_swap(
        qadd_s(
            qadd_s(qadd_s(qadd_s(pub_sum, r99), rts), qv(ic.range_check_builtin.claimed_sum)),
            qv(ic.memory_addr_to_id.claimed_sum),
        ),
        delta,
        qv(ic.memory_id_to_value.claimed_sum),
    );
    assert(total_sum_s(c, e, ic2) == qadd_s(total_sum_s(c, e, ic), delta));
    lemma_qadd_zero(delta);
}

/// Tamper sensitivity for the range-check builtin: shifting its claimed sum
/// by any nonzero delta makes a vanishing total fail.
pub proof fn lemma_logup_tamper_range_check_builtin(
    c: CairoClaim,
    e: CairoInteractionElements,
    ic: CairoInteractionClaim,
    ic2: CairoInteractionClaim,
    delta: Q4,
)
    requires
        ic_wf(ic),
        qwf(delta),
        delta != qzero_s(),
        total_sum_s(c, e, ic) == qzero_s(),
        ic2.ret@ == ic.ret@,
        ic2.memory_addr_to_id == ic.memory_addr_to_id,
        ic2.memory_id_to_value == ic.memory_id_to_value,
        ic2.range_check9_9 == ic.range_check9_9,
        qv(ic2.range_check_builtin.claimed_sum) == qadd_s(
            qv(ic.range_check_builtin.claimed_sum),
            delta,
        ),
    ensures
        total_sum_s(c, e, ic2) != qzero_s(),
{
    let pub_sum = qsum_s(mem_terms_s(e.memory_id_to_value_lookup, c.public_memory@));
    let prefix = qadd_s(
        qadd_s(pub_sum, qv(ic.range_check9_9.claimed_sum)),
        qsum_s(ret_cs_terms_s(ic.ret@)),
    );
    lemma_mem_terms_wf(e.memory_id_to_value_lookup, c.public_memory@);
    lemma_qsum_wf(mem_terms_s(e.memory_id_to_value_lookup, c.public_memory@));
    assert(qseq_wf(ret_cs_terms_s(ic.ret@)));
    lemma_qsum_wf(ret_cs_terms_s(ic.ret@));
    lemma_qadd_assoc(prefix, qv(ic.range_check_builtin.claimed_sum), delta);
    lemma_qadd_swap(
        qadd_s(prefix, qv(ic.range_check_builtin.claimed_sum)),
        delta,
        qv(ic.memory_addr_to_id.claimed_sum),
    );
    lemma_qadd_swap(
        qadd_s(
            qadd_s(prefix, qv(ic.range_check_builtin.claimed_sum)),
            qv(ic.memory_addr_to_id.claimed_sum),
        ),
        delta,
        qv(ic.memory_id_to_value.claimed_sum),
    );
    assert(total_sum_s(c, e, ic2) == qadd_s(total_sum_s(c, e, ic), delta));
    lemma_qadd_zero(delta);
}

/// Tamper sensitivity for the memory address-to-id table: shifting its
/// claimed sum by any nonzero delta makes a vanishing total fail.
pub proof fn lemma_logup_tamper_memory_addr_to_id(
    c: CairoClaim,
    e: CairoInteractionElements,
    ic: CairoInteractionClaim,
    ic2: CairoInteractionClaim,
    delta: Q4,
)
    requires
        ic_wf(ic),
        qwf(delta),
        delta != qzero_s(),
        total_sum_s(c, e, ic) == qzero_s(),
        ic2.ret@ == ic.ret@,
        ic2.range_check_builtin == ic.range_check_builtin,
        ic2.memory_id_to_value == ic.memory_id_to_value,
        ic2.range_check9_9 == ic.range_check9_9,
        qv(ic2.memory_addr_to_id.claimed_sum) == qadd_s(
            qv(ic.memory_addr_to_id.claimed_sum),
            delta,
        ),
    ensures
        total_sum_s(c, e, ic2) != qzero_s(),
{
    let pub_sum = qsum_s(mem_terms_s(e.memory_id_to_value_lookup, c.public_memory@));
    let prefix = qadd_s(
        qadd_s(
            qadd_s(pub_sum, qv(ic.range_check9_9.claimed_sum)),
            qsum_s(ret_cs_terms_s(ic.ret@)),
        ),
        qv(ic.range_check_builtin.claimed_sum),
    );
    lemma_mem_terms_wf(e.memory_id_to_value_lookup, c.public_memory@);
    lemma_qsum_wf(mem_terms_s(e.memory_id_to_value_lookup, c.public_memory@));
    assert(qseq_wf(ret_cs_terms_s(ic.ret@)));
    lemma_qsum_wf(ret_cs_terms_s(ic.ret@));
    lemma_qadd_assoc(prefix, qv(ic.memory_addr_to_id.claimed_sum), delta);
    lemma_qadd_swap(
        qadd_s(prefix, qv(ic.memory_addr_to_id.claimed_sum)),
        delta,
        qv(ic.memory_id_to_value.claimed_sum),
    );
    assert(total_sum_s(c, e, ic2) == qadd_s(total_sum_s(c, e, ic), delta));
    lemma_qadd_zero(delta);
}

/// Tamper sensitivity for the memory id-to-value table: shifting its
/// claimed sum by any nonzero delta makes a vanishing total fail.
pub proof fn lemma_logup_tamper_memory_id_to_value(
    c: CairoClaim,
    e: CairoInteractionElements,
    ic: CairoInteractionClaim,
    ic2: CairoInteractionClaim,
    delta: Q4,
)
    requires
        ic_wf(ic),
        qwf(delta),
        delta != qzero_s(),
        total_sum_s(c, e, ic) == qzero_s(),
        ic2.ret@ == ic.ret@,
        ic2.range_check_builtin == ic.range_check_builtin,
        ic2.memory_addr_to_id == ic.memory_addr_to_id,
        ic2.range_check9_9 == ic.range_check9_9,
        qv(ic2.memory_id_to_value.claimed_sum) == qadd_s(
            qv(ic.memory_id_to_value.claimed_sum),
            delta,
        ),
    ensures
        total_sum_s(c, e, ic2) != qzero_s(),
{
    let pub_sum = qsum_s(mem_terms_s(e.memory_id_to_value_lookup, c.public_memory@));
    lemma_mem_terms_wf(e.memory_id_to_value_lookup, c.public_memory@);
    lemma_qsum_wf(mem_terms_s(e.memory_id_to_value_lookup, c.public_memory@));
    assert(qseq_wf(ret_cs_terms_s(ic.ret@)));
    lemma_qsum_wf(ret_cs_terms_s(ic.ret@));
    lemma_qadd_assoc(
        qadd_s(
            qadd_s(
                qadd_s(
                    qadd_s(pub_sum, qv(ic.range_check9_9.claimed_sum)),
                    qsum_s(ret_cs_terms_s(ic.ret@)),
                ),
                qv(ic.range_check_builtin.claimed_sum),
            ),
            qv(ic.memory_addr_to_id.claimed_sum),
        ),
        qv(ic.memory_id_to_value.claimed_sum),
        delta,
    );
    assert(total_sum_s(c, e, ic2) == qadd_s(total_sum_s(c, e, ic), delta));
    lemma_qadd_zero(delta);
}

/// Tamper sensitivity of the consistency check: if the total sum of an
/// interaction claim vanishes, then shifting the 9-bit range-check claimed
/// sum by any nonzero delta makes the check fail.
pub proof fn lemma_logup_tamper_rc99(
    c: CairoClaim,
    e: CairoInteractionElements,
    ic: CairoInteractionClaim,
    ic2: CairoInteractionClaim,
    delta: Q4,
)
    requires
        ic_wf(ic),
        qwf(delta),
        delta != qzero_s(),
        total_sum_s(c, e, ic) == qzero_s(),
        ic2.ret@ == ic.ret@,
        ic2.range_check_builtin == ic.range_check_builtin,
        ic2.memory_addr_to_id == ic.memory_addr_to_id,
        ic2.memory_id_to_value == ic.memory_id_to_value,
        qv(ic2.range_check9_9.claimed_sum) == qadd_s(qv(ic.range_check9_9.claimed_sum), delta),
    ensures
        total_sum_s(c, e, ic2) != qzero_s(),
{
    let pub_sum = qsum_s(mem_terms_s(e.memory_id_to_value_lookup, c.public_memory@));
    let r99 = qv(ic.range_check9_9.claimed_sum);
    let rts = qsum_s(ret_cs_terms_s(ic.ret@));
    let rcb = qv(ic.range_check_builtin.claimed_sum);
    let ad = qv(ic.memory_addr_to_id.claimed_sum);
    let idv = qv(ic.memory_id_to_value.claimed_sum);
    lemma_mem_terms_wf(e.memory_id_to_value_lookup, c.public_memory@);
    lemma_qsum_wf(mem_terms_s(e.memory_id_to_value_lookup, c.public_memory@));
    assert(qseq_wf(ret_cs_terms_s(ic.ret@)));
    lemma_qsum_wf(ret_cs_terms_s(ic.ret@));
    // Pull the delta out of the innermost sum, then move it past each later
    // term.
    lemma_qadd_assoc(pub_sum, r99, delta);
    lemma_qadd_swap(qadd_s(pub_sum, r99), delta, rts);
    lemma_qadd_swap(qadd_s(qadd_s(pub_sum, r99), rts), delta, rcb);
    lemma_qadd_swap(qadd_s(qadd_s(qadd_s(pub_sum, r99), rts), rcb), delta, ad);
    lemma_qadd_swap(qadd_s(qadd_s(qadd_s(qadd_s(pub_sum, r99), rts), rcb), ad), delta, idv);
    assert(total_sum_s(c, e, ic2) == qadd_s(total_sum_s(c, e, ic), delta));
    lemma_qadd_zero(delta);
}

} // verus!
