//! The prove and verify pipelines. Both walk the same phase sequence —
//! absorb claim, commit base trace, draw relation elements, check logup
//! consistency, absorb interaction claim, commit interaction and constant
//! traces, run the engine — so the verifier's acceptance is a pure function
//! of the proof, and an honestly produced proof is accepted by construction.

use vstd::prelude::*;
use crate::channel::{draw_words_s, drawn_q4_s, lemma_digest_bound, Channel};
use crate::claims::{claim_words_s, CairoClaim, RetClaim};
use crate::components::{components_s, CairoComponents};
use crate::fields::P;
use crate::interaction::{
    ic_wf, ic_words_s, CairoInteractionClaim, CairoInteractionElements, SubInteractionClaim,
};
use crate::logup::{lemma_honest_total, lookup_sum_valid, total_sum_s};
use crate::pcs::{
    precompute_twiddles, CommitmentSchemeProver, CommitmentSchemeVerifier, PcsConfig, TreeBuilder,
};
use crate::qm31::{qv, qwf, qzero_s, qm31_wf, Q4, QM31};
use crate::relations::RelationElements;
use crate::stark::{
    domains_fit_s, oods_s, stark_prove, stark_verify, ProvingError, StarkError, StarkProof,
};
use crate::trace::{
    addr_pairs_s, addrs_ok_s, log2_ceil_s, rc_pairs_of_s, ret_pcs_s, CairoInput, Instructions,
    MemoryAddrToIdClaimGenerator, MemoryIdToValueClaimGenerator, RangeCheck99ClaimGenerator,
    RangeCheckBuiltinClaimGenerator, RetClaimGenerator, MAX_TRACE_LEN,
};

verus! {

/// Upper bound on the log-size of any supported trace.
pub const LOG_MAX_ROWS: u32 = 20;

/// The proof artifact: the two aggregated claims and the engine's blob.
#[derive(Debug)]
pub struct CairoProof {
    pub claim: CairoClaim,
    pub interaction_claim: CairoInteractionClaim,
    pub stark_proof: StarkProof,
}

/// Why a proof was rejected.
#[derive(Clone, Copy, PartialEq, Eq, Structural, Debug)]
pub enum CairoVerificationError {
    InvalidLogupSum,
    Stark(StarkError),
}

/// The extension-field value with the given reduced coordinates.
pub open spec fn qm31_of_q4(x: Q4) -> QM31 {
    QM31 { a: x.0 as u32, b: x.1 as u32, c: x.2 as u32, d: x.3 as u32 }
}

/// The relation elements a transcript in state `w` yields, in the fixed
/// drawing order.
pub open spec fn elements_of_s(w: Seq<u32>) -> CairoInteractionElements {
    CairoInteractionElements {
        memory_addr_to_id_lookup: RelationElements {
            z: qm31_of_q4(drawn_q4_s(w, 0)),
            alpha: qm31_of_q4(drawn_q4_s(w, 4)),
        },
        memory_id_to_value_lookup: RelationElements {
            z: qm31_of_q4(drawn_q4_s(w, 8)),
            alpha: qm31_of_q4(drawn_q4_s(w, 12)),
        },
        range9_9_lookup: RelationElements {
            z: qm31_of_q4(drawn_q4_s(w, 16)),
            alpha: qm31_of_q4(drawn_q4_s(w, 20)),
        },
    }
}

proof fn lemma_drawn_q4_wf(w: Seq<u32>, k: nat)
    ensures
        qwf(drawn_q4_s(w, k)),
        qv(qm31_of_q4(drawn_q4_s(w, k))) == drawn_q4_s(w, k),
{
    lemma_digest_bound(draw_words_s(w, k));
    lemma_digest_bound(draw_words_s(w, (k + 1) as nat));
    lemma_digest_bound(draw_words_s(w, (k + 2) as nat));
    lemma_digest_bound(draw_words_s(w, (k + 3) as nat));
}

/// The elements drawn from state `w` are exactly `elements_of_s(w)`.
proof fn lemma_elements_of(w: Seq<u32>, e: CairoInteractionElements)
    requires
        qv(e.memory_addr_to_id_lookup.z) == drawn_q4_s(w, 0),
        qv(e.memory_addr_to_id_lookup.alpha) == drawn_q4_s(w, 4),
        qv(e.memory_id_to_value_lookup.z) == drawn_q4_s(w, 8),
        qv(e.memory_id_to_value_lookup.alpha) == drawn_q4_s(w, 12),
        qv(e.range9_9_lookup.z) == drawn_q4_s(w, 16),
        qv(e.range9_9_lookup.alpha) == drawn_q4_s(w, 20),
    ensures
        e == elements_of_s(w),
{
    lemma_drawn_q4_wf(w, 0);
    lemma_drawn_q4_wf(w, 4);
    lemma_drawn_q4_wf(w, 8);
    lemma_drawn_q4_wf(w, 12);
    lemma_drawn_q4_wf(w, 16);
    lemma_drawn_q4_wf(w, 20);
    assert(e.memory_addr_to_id_lookup.z == elements_of_s(w).memory_addr_to_id_lookup.z);
    assert(e.memory_addr_to_id_lookup.alpha == elements_of_s(w).memory_addr_to_id_lookup.alpha);
    assert(e.memory_id_to_value_lookup.z == elements_of_s(w).memory_id_to_value_lookup.z);
    assert(e.memory_id_to_value_lookup.alpha == elements_of_s(w).memory_id_to_value_lookup.alpha);
    assert(e.range9_9_lookup.z == elements_of_s(w).range9_9_lookup.z);
    assert(e.range9_9_lookup.alpha == elements_of_s(w).range9_9_lookup.alpha);
}

/// Structural validity of a proof: three commitments, matching instance
/// counts, and reduced field values in the interaction claim.
pub open spec fn proof_structure_ok_s(p: CairoProof) -> bool {
    &&& p.stark_proof.commitments@.len() == 3
    &&& p.claim.ret@.len() == p.interaction_claim.ret@.len()
    &&& p.claim.ret@.len() <= MAX_TRACE_LEN
    &&& ic_wf(p.interaction_claim)
}

/// The verifier transcript state after the base-trace commitment.
pub open spec fn base_state_s(p: CairoProof) -> Seq<u32> {
    claim_words_s(p.claim).push(p.stark_proof.commitments@[0])
}

/// The verifier transcript state before the engine runs.
pub open spec fn engine_state_s(p: CairoProof) -> Seq<u32> {
    (draw_words_s(base_state_s(p), 24) + ic_words_s(p.interaction_claim)).push(
        p.stark_proof.commitments@[1],
    ).push(p.stark_proof.commitments@[2])
}

/// The logup consistency sum of a proof, under the relation elements its
/// own transcript yields.
pub open spec fn proof_total_sum_s(p: CairoProof) -> Q4 {
    total_sum_s(p.claim, elements_of_s(base_state_s(p)), p.interaction_claim)
}

/// Exactly the proofs the verifier accepts: structurally valid, logup
/// consistent, and carrying the transcript checkpoint the verifier
/// reproduces.
pub open spec fn verify_accepts_s(p: CairoProof) -> bool {
    &&& proof_structure_ok_s(p)
    &&& proof_total_sum_s(p) == qzero_s()
    &&& p.stark_proof.oods_check == oods_s(engine_state_s(p))
}

fn qm31_reduced(x: &QM31) -> (r: bool)
    ensures
        r == qm31_wf(*x),
{
    x.a < P && x.b < P && x.c < P && x.d < P
}

fn interaction_claim_reduced(ic: &CairoInteractionClaim) -> (r: bool)
    ensures
        r == ic_wf(*ic),
{
    let mut i: usize = 0;
    while i < ic.ret.len()
        invariant
            i <= ic.ret.len(),
            forall|k: int| 0 <= k < i ==> qm31_wf(#[trigger] ic.ret@[k].claimed_sum),
        decreases ic.ret.len() - i,
    {
        if !qm31_reduced(&ic.ret[i].claimed_sum) {
            return false;
        }
        i = i + 1;
    }
    qm31_reduced(&ic.range_check_builtin.claimed_sum) && qm31_reduced(
        &ic.memory_addr_to_id.claimed_sum,
    ) && qm31_reduced(&ic.memory_id_to_value.claimed_sum) && qm31_reduced(
        &ic.range_check9_9.claimed_sum,
    )
}

fn push_all(tb: &mut TreeBuilder, ws: &Vec<u32>)
    ensures
        final(tb).words@ == old(tb).words@ + ws@,
{
    let ghost w0 = tb.words@;
    let mut i: usize = 0;
    proof {
        assert(w0 + ws@.take(0) =~= w0);
    }
    while i < ws.len()
        invariant
            i <= ws.len(),
            tb.words@ == w0 + ws@.take(i as int),
        decreases ws.len() - i,
    {
        tb.push_word(ws[i]);
        proof {
            assert(ws@.take(i as int + 1) =~= ws@.take(i as int).push(ws@[i as int]));
            assert(tb.words@ =~= w0 + ws@.take(i as int + 1));
        }
        i = i + 1;
    }
    proof {
        assert(ws@.take(ws.len() as int) =~= ws@);
    }
}

/// Verify a proof. Acceptance is a pure function of the proof: the verifier
/// replays the transcript, checks logup consistency unconditionally, and
/// delegates the final opening check to the engine. Rejection is always a
/// typed error, never a panic.
pub fn verify_cairo(cairo_proof: CairoProof) -> (r: Result<(), CairoVerificationError>)
    ensures
        r is Ok <==> verify_accepts_s(cairo_proof),
        r == Err::<(), CairoVerificationError>(CairoVerificationError::Stark(
            StarkError::InvalidStructure,
        )) <==> !proof_structure_ok_s(cairo_proof),
        r == Err::<(), CairoVerificationError>(CairoVerificationError::InvalidLogupSum) <==> (
        proof_structure_ok_s(cairo_proof) && proof_total_sum_s(cairo_proof) != qzero_s()),
{
    let CairoProof { claim, interaction_claim, stark_proof } = cairo_proof;
    if stark_proof.commitments.len() != 3 {
        return Err(CairoVerificationError::Stark(StarkError::InvalidStructure));
    }
    if claim.ret.len() != interaction_claim.ret.len() {
        return Err(CairoVerificationError::Stark(StarkError::InvalidStructure));
    }
    if claim.ret.len() > MAX_TRACE_LEN {
        return Err(CairoVerificationError::Stark(StarkError::InvalidStructure));
    }
    if !interaction_claim_reduced(&interaction_claim) {
        return Err(CairoVerificationError::Stark(StarkError::InvalidStructure));
    }
    let mut channel = Channel::new();
    let mut commitment_scheme_verifier = CommitmentSchemeVerifier::new();
    claim.mix_into(&mut channel);
    proof {
        assert(channel@ =~= claim_words_s(claim));
    }
    let ghost w1 = channel@;
    let sizes = claim.log_sizes();
    commitment_scheme_verifier.commit(stark_proof.commitments[0], sizes.base, &mut channel);
    let ghost w2 = channel@;
    proof {
        assert(w2 == base_state_s(cairo_proof));
    }
    let interaction_elements = CairoInteractionElements::draw(&mut channel);
    proof {
        lemma_elements_of(w2, interaction_elements);
    }
    if !lookup_sum_valid(&claim, &interaction_elements, &interaction_claim) {
        return Err(CairoVerificationError::InvalidLogupSum);
    }
    interaction_claim.mix_into(&mut channel);
    commitment_scheme_verifier.commit(stark_proof.commitments[1], sizes.interaction, &mut channel);
    commitment_scheme_verifier.commit(stark_proof.commitments[2], sizes.constant, &mut channel);
    let ghost w6 = channel@;
    proof {
        assert(w6 == engine_state_s(cairo_proof));
    }
    let component_generator = CairoComponents::new(
        &claim,
        &interaction_elements,
        &interaction_claim,
    );
    let components = component_generator.components();
    proof {
        crate::components::lemma_sizes_consistent(claim, interaction_claim);
        assert(commitment_scheme_verifier.trees@.len() == 3);
        assert(commitment_scheme_verifier.trees@[0].sizes@ == crate::claims::base_sizes_s(claim));
        assert(commitment_scheme_verifier.trees@[1].sizes@ == crate::claims::inter_sizes_s(claim));
        assert(commitment_scheme_verifier.trees@[2].sizes@ == crate::claims::base_sizes_s(claim));
        assert(crate::stark::sizes_match_s(components@, commitment_scheme_verifier.trees@));
    }
    match stark_verify(&components, &mut channel, &commitment_scheme_verifier, &stark_proof) {
        Ok(()) => Ok(()),
        Err(e) => Err(CairoVerificationError::Stark(e)),
    }
}

/// The inputs on which proving succeeds: every sub-component trace, and the
/// shared memory table with all registered uses, fits the supported bound.
pub open spec fn prove_ok_s(input: CairoInput) -> bool {
    &&& log2_ceil_s(input.instructions.ret@.len() as nat) <= LOG_MAX_ROWS
    &&& log2_ceil_s(input.range_check_builtin@.len() as nat) <= LOG_MAX_ROWS
    &&& log2_ceil_s(input.mem.values@.len() as nat) <= LOG_MAX_ROWS
    &&& log2_ceil_s(
        (input.public_mem_addresses@.len() + input.instructions.ret@.len()
            + input.range_check_builtin@.len()) as nat,
    ) <= LOG_MAX_ROWS
}

/// Prove one execution trace. The phases are strictly sequential; consumers
/// register their lookup inputs into the shared collectors before those are
/// finalized, so the logup consistency invariant holds by construction (it
/// is established by proof here rather than by a debug-time assertion), and
/// the resulting proof is accepted by `verify_cairo`.
#[verifier::rlimit(100)]
pub fn prove_cairo(input: CairoInput) -> (r: Result<CairoProof, ProvingError>)
    requires
        input.mem.values@.len() <= MAX_TRACE_LEN,
        input.public_mem_addresses@.len() + input.instructions.ret@.len()
            + input.range_check_builtin@.len() <= MAX_TRACE_LEN,
        addrs_ok_s(input.mem.values@, input.public_mem_addresses@),
        addrs_ok_s(input.mem.values@, ret_pcs_s(input.instructions.ret@)),
        addrs_ok_s(input.mem.values@, input.range_check_builtin@),
    ensures
        r is Ok <==> prove_ok_s(input),
        r is Err ==> r.unwrap_err() == ProvingError::TraceTooLarge,
        r is Ok ==> verify_accepts_s(r.unwrap()),
        r is Ok ==> r.unwrap().claim.ret@.len() == 1,
        r is Ok ==> r.unwrap().claim.public_memory@ == addr_pairs_s(
            input.mem.values@,
            input.public_mem_addresses@,
        ),
        r is Ok ==> r.unwrap().claim.initial_state == input.instructions.initial_state
            && r.unwrap().claim.final_state == input.instructions.final_state,
        r is Ok ==> r.unwrap().claim.ret@[0].log_size as nat == log2_ceil_s(
            input.instructions.ret@.len() as nat,
        ),
        r is Ok ==> r.unwrap().claim.range_check_builtin.log_size as nat == log2_ceil_s(
            input.range_check_builtin@.len() as nat,
        ),
        r is Ok ==> r.unwrap().claim.memory_addr_to_id.log_size as nat == log2_ceil_s(
            input.mem.values@.len() as nat,
        ),
        r is Ok ==> r.unwrap().claim.memory_id_to_value.log_size as nat == log2_ceil_s(
            (input.public_mem_addresses@.len() + input.instructions.ret@.len()
                + input.range_check_builtin@.len()) as nat,
        ),
{
    let CairoInput { instructions, mem, public_mem_addresses, range_check_builtin } = input;
    let Instructions { ret: ret_states, initial_state, final_state } = instructions;
    let ghost mem0 = mem.values@;
    let config = PcsConfig::default();
    let twiddles = precompute_twiddles(LOG_MAX_ROWS + config.log_blowup_factor + 2);

    // Set up the protocol.
    let mut channel = Channel::new();
    let mut commitment_scheme = CommitmentSchemeProver::new(config, &twiddles);

    // Base trace: consumers register into the shared collectors before the
    // collectors are finalized.
    let addr_to_id_generator = MemoryAddrToIdClaimGenerator::new(&mem);
    let mut memory_id_to_value_generator = MemoryIdToValueClaimGenerator::new(mem);
    let public_memory = crate::trace::register_addr_uses(
        &public_mem_addresses,
        &mut memory_id_to_value_generator,
    );
    let ret_generator = RetClaimGenerator::new(ret_states);
    let range_check_builtin_generator = RangeCheckBuiltinClaimGenerator::new(range_check_builtin);
    let mut range_check_9_9_generator = RangeCheck99ClaimGenerator::new();

    let mut tree_builder = TreeBuilder::new();
    let (ret_claim, ret_prover) = ret_generator.write_trace(
        &mut tree_builder,
        &mut memory_id_to_value_generator,
    );
    let (range_check_builtin_claim, range_check_builtin_prover) = range_check_builtin_generator
        .write_trace(&mut tree_builder, &mut memory_id_to_value_generator);
    let (memory_addr_to_id_claim, memory_addr_to_id_prover) = addr_to_id_generator.write_trace(
        &mut tree_builder,
    );
    let ghost registered = memory_id_to_value_generator.registered@;
    proof {
        crate::trace::lemma_rc_pairs_len(registered);
    }
    let (memory_id_to_value_claim, memory_id_to_value_prover) = memory_id_to_value_generator
        .write_trace(&mut tree_builder, &mut range_check_9_9_generator);
    let (range_check9_9_claim, range_check9_9_prover) = range_check_9_9_generator.write_trace(
        &mut tree_builder,
    );

    // Commit to the claim and the base trace.
    let mut ret_claims: Vec<RetClaim> = Vec::new();
    ret_claims.push(ret_claim);
    let claim = CairoClaim {
        public_memory,
        initial_state,
        final_state,
        ret: ret_claims,
        range_check_builtin: range_check_builtin_claim,
        memory_addr_to_id: memory_addr_to_id_claim,
        memory_id_to_value: memory_id_to_value_claim,
        range_check9_9: range_check9_9_claim,
    };
    claim.mix_into(&mut channel);
    proof {
        assert(claim.ret@ =~= seq![ret_claim]);
        assert(channel@ =~= claim_words_s(claim));
    }
    let ghost w1 = channel@;
    let root0 = commitment_scheme.commit(tree_builder, &mut channel);
    let ghost w2 = channel@;

    // Draw the relation elements.
    let interaction_elements = CairoInteractionElements::draw(&mut channel);
    proof {
        lemma_elements_of(w2, interaction_elements);
    }

    // Interaction trace.
    let mut tree_builder = TreeBuilder::new();
    let ret_interaction_claim = ret_prover.write_interaction_trace(
        &mut tree_builder,
        &interaction_elements.memory_id_to_value_lookup,
    );
    let range_check_builtin_interaction_claim = range_check_builtin_prover
        .write_interaction_trace(
        &mut tree_builder,
        &interaction_elements.memory_id_to_value_lookup,
    );
    let memory_addr_to_id_interaction_claim = memory_addr_to_id_prover.write_interaction_trace(
        &mut tree_builder,
        &interaction_elements.memory_addr_to_id_lookup,
    );
    let memory_id_to_value_interaction_claim = memory_id_to_value_prover.write_interaction_trace(
        &mut tree_builder,
        &interaction_elements.memory_id_to_value_lookup,
        &interaction_elements.range9_9_lookup,
    );
    let range_check9_9_interaction_claim = range_check9_9_prover.write_interaction_trace(
        &mut tree_builder,
        &interaction_elements.range9_9_lookup,
    );

    // Commit to the interaction claim and the interaction trace. The logup
    // consistency of the claimed sums is established by proof.
    let mut ret_interaction_claims: Vec<SubInteractionClaim> = Vec::new();
    ret_interaction_claims.push(ret_interaction_claim);
    let interaction_claim = CairoInteractionClaim {
        ret: ret_interaction_claims,
        range_check_builtin: range_check_builtin_interaction_claim,
        memory_addr_to_id: memory_addr_to_id_interaction_claim,
        memory_id_to_value: memory_id_to_value_interaction_claim,
        range_check9_9: range_check9_9_interaction_claim,
    };
    proof {
        assert(interaction_claim.ret@ =~= seq![ret_interaction_claim]);
        assert(registered =~= addr_pairs_s(mem0, public_mem_addresses@) + addr_pairs_s(
            mem0,
            ret_pcs_s(input.instructions.ret@),
        ) + addr_pairs_s(mem0, input.range_check_builtin@));
        lemma_honest_total(
            claim,
            interaction_elements,
            interaction_claim,
            addr_pairs_s(mem0, ret_pcs_s(input.instructions.ret@)),
            addr_pairs_s(mem0, input.range_check_builtin@),
            rc_pairs_of_s(registered),
        );
    }
    interaction_claim.mix_into(&mut channel);
    let root1 = commitment_scheme.commit(tree_builder, &mut channel);

    // Constant/fixed trace: selector columns whose sizes are a pure
    // function of the claim's reported log-sizes.
    let mut tree_builder = TreeBuilder::new();
    let sizes = claim.log_sizes();
    push_all(&mut tree_builder, &sizes.constant);
    let root2 = commitment_scheme.commit(tree_builder, &mut channel);
    let ghost w6 = channel@;

    // Component provers, then the engine.
    let component_builder = CairoComponents::new(
        &claim,
        &interaction_elements,
        &interaction_claim,
    );
    let components = component_builder.provers();
    let ghost pre_engine = channel@;
    let stark_result = stark_prove(&components, &mut channel, &commitment_scheme);
    match stark_result {
        Err(e) => {
            proof {
                lemma_prove_ok_iff(input, claim, interaction_claim);
            }
            Err(e)
        },
        Ok(stark_proof) => {
            let cairo_proof = CairoProof { claim, interaction_claim, stark_proof };
            proof {
                lemma_prove_ok_iff(input, claim, interaction_claim);
                assert(cairo_proof.stark_proof.commitments@ =~= seq![root0, root1, root2]);
                assert(base_state_s(cairo_proof) == w2);
                assert(engine_state_s(cairo_proof) == w6);
            }
            Ok(cairo_proof)
        },
    }
}

/// The engine's domain bound, on the components this pipeline builds, is
/// exactly the input-size condition `prove_ok_s`.
proof fn lemma_prove_ok_iff(input: CairoInput, claim: CairoClaim, ic: CairoInteractionClaim)
    requires
        claim.ret@.len() == 1,
        claim.ret@[0].log_size as nat == log2_ceil_s(input.instructions.ret@.len() as nat),
        claim.range_check_builtin.log_size as nat == log2_ceil_s(
            input.range_check_builtin@.len() as nat,
        ),
        claim.memory_addr_to_id.log_size as nat == log2_ceil_s(input.mem.values@.len() as nat),
        claim.memory_id_to_value.log_size as nat == log2_ceil_s(
            (input.public_mem_addresses@.len() + input.instructions.ret@.len()
                + input.range_check_builtin@.len()) as nat,
        ),
    ensures
        domains_fit_s(components_s(claim, ic), 1, (LOG_MAX_ROWS + 3) as u32) <==> prove_ok_s(input),
{
    let cs = components_s(claim, ic);
    assert(cs.len() == 5);
    if prove_ok_s(input) {
        assert forall|i: int| 0 <= i < cs.len() implies #[trigger] cs[i].log_size + 1 + 2
            <= LOG_MAX_ROWS + 3 by {
            assert(cs[i] == crate::components::component_at_s(claim, ic, i));
        }
    }
    if domains_fit_s(cs, 1, (LOG_MAX_ROWS + 3) as u32) {
        assert(cs[0].log_size + 1 + 2 <= LOG_MAX_ROWS + 3);
        assert(cs[1].log_size + 1 + 2 <= LOG_MAX_ROWS + 3);
        assert(cs[2].log_size + 1 + 2 <= LOG_MAX_ROWS + 3);
        assert(cs[3].log_size + 1 + 2 <= LOG_MAX_ROWS + 3);
    }
}

} // verus!
