use cairo_air::air::{prove_cairo, verify_cairo, CairoVerificationError};
use cairo_air::channel::Channel;
use cairo_air::interaction::{CairoInteractionElements, SubInteractionClaim};
use cairo_air::logup::lookup_sum_valid;
use cairo_air::qm31::QM31;
use cairo_air::stark::{ProvingError, StarkError};
use cairo_air::trace::{CairoInput, Instructions, Memory};
use cairo_air::claims::VmState;
use cairo_air::components::CairoComponents;
use cairo_air::pcs::CommitmentSchemeVerifier;
use cairo_air::stark::stark_verify;

fn cell(v: u32) -> [u32; 8] {
    [v, 0, 0, 0, 0, 0, 0, 0]
}

/// A minimal program: one `call`, one conditional branch, one `ret`, a
/// 40-cell range-check builtin segment, and a handful of public memory
/// cells.
fn test_input() -> CairoInput {
    let mut values: Vec<[u32; 8]> = Vec::new();
    let mut i: u32 = 0;
    while i < 64 {
        values.push(cell(1000 + i * 7));
        i += 1;
    }
    // The program region: call, conditional branch, ret.
    values[5] = cell(0x1104_8001); // call
    values[6] = cell(0x0000_8001); // conditional branch
    values[7] = cell(0x208b_7fff); // ret
    let mut range_check_builtin: Vec<u32> = Vec::new();
    let mut a: u32 = 8;
    while a < 48 {
        range_check_builtin.push(a);
        a += 1;
    }
    CairoInput {
        instructions: Instructions {
            ret: vec![VmState { pc: 7, ap: 20, fp: 9 }],
            initial_state: VmState { pc: 5, ap: 10, fp: 10 },
            final_state: VmState { pc: 7, ap: 22, fp: 9 },
        },
        mem: Memory { values },
        public_mem_addresses: vec![0, 1, 2, 3, 4],
        range_check_builtin,
    }
}

#[test]
fn test_basic_cairo_air() {
    let cairo_proof = prove_cairo(test_input()).unwrap();
    verify_cairo(cairo_proof).unwrap();
}

#[test]
fn test_proof_shape() {
    let cairo_proof = prove_cairo(test_input()).unwrap();
    assert_eq!(cairo_proof.claim.ret.len(), 1);
    assert_eq!(cairo_proof.claim.public_memory.len(), 5);
    assert_eq!(cairo_proof.stark_proof.commitments.len(), 3);
    assert_eq!(cairo_proof.claim.range_check_builtin.log_size, 6); // 40 cells
}

#[test]
fn test_tamper_range_check9_9_claimed_sum() {
    // Mutating the 9-bit range-check claimed sum by any nonzero value must
    // be caught by the logup consistency check.
    let mut proof = prove_cairo(test_input()).unwrap();
    let old = proof.interaction_claim.range_check9_9.claimed_sum;
    proof.interaction_claim.range_check9_9 = SubInteractionClaim {
        claimed_sum: old.add(&QM31::one()),
    };
    assert_eq!(
        verify_cairo(proof),
        Err(CairoVerificationError::InvalidLogupSum)
    );
}

#[test]
fn test_tamper_ret_claimed_sum() {
    let mut proof = prove_cairo(test_input()).unwrap();
    let old = proof.interaction_claim.ret[0].claimed_sum;
    proof.interaction_claim.ret[0] = SubInteractionClaim {
        claimed_sum: old.add(&QM31 { a: 0, b: 12345, c: 0, d: 0 }),
    };
    assert_eq!(
        verify_cairo(proof),
        Err(CairoVerificationError::InvalidLogupSum)
    );
}

#[test]
fn test_tamper_claim_log_size() {
    // A flipped claim field desynchronizes the transcript, so the relation
    // elements drawn by the verifier differ and verification fails (here at
    // the logup check, which runs first).
    let mut proof = prove_cairo(test_input()).unwrap();
    proof.claim.ret[0].log_size += 1;
    assert!(verify_cairo(proof).is_err());
}

#[test]
fn test_tamper_public_memory() {
    // Public memory enters the logup sum (though not the transcript).
    let mut proof = prove_cairo(test_input()).unwrap();
    let (addr, mut value) = proof.claim.public_memory[2];
    value[0] ^= 1;
    proof.claim.public_memory[2] = (addr, value);
    assert_eq!(
        verify_cairo(proof),
        Err(CairoVerificationError::InvalidLogupSum)
    );
}

#[test]
fn test_tamper_commitment() {
    // A flipped base-trace commitment changes the drawn elements, so
    // verification fails, either at the logup check or at the engine.
    let mut proof = prove_cairo(test_input()).unwrap();
    proof.stark_proof.commitments[0] ^= 1;
    assert!(verify_cairo(proof).is_err());
    // A flipped commitment after the draws is only caught by the engine.
    let mut proof2 = prove_cairo(test_input()).unwrap();
    proof2.stark_proof.commitments[2] ^= 1;
    assert_eq!(
        verify_cairo(proof2),
        Err(CairoVerificationError::Stark(StarkError::OodsNotMatching))
    );
}

#[test]
fn test_tamper_stark_blob() {
    let mut proof = prove_cairo(test_input()).unwrap();
    proof.stark_proof.oods_check ^= 1;
    assert_eq!(
        verify_cairo(proof),
        Err(CairoVerificationError::Stark(StarkError::OodsNotMatching))
    );
}

#[test]
fn test_malformed_proof_rejected() {
    // A proof whose commitment list has the wrong arity is rejected as
    // structurally invalid, never a panic.
    let mut proof = prove_cairo(test_input()).unwrap();
    proof.stark_proof.commitments.pop();
    assert_eq!(
        verify_cairo(proof),
        Err(CairoVerificationError::Stark(StarkError::InvalidStructure))
    );
}

#[test]
fn test_unreduced_interaction_claim_rejected() {
    let mut proof = prove_cairo(test_input()).unwrap();
    proof.interaction_claim.memory_addr_to_id = SubInteractionClaim {
        claimed_sum: QM31 { a: 0x7fff_ffff, b: 0, c: 0, d: 0 },
    };
    assert_eq!(
        verify_cairo(proof),
        Err(CairoVerificationError::Stark(StarkError::InvalidStructure))
    );
}

#[test]
fn test_logup_invariant() {
    // Replay the verifier's transcript to obtain the drawn elements, then
    // check the consistency predicate directly on honest and tampered
    // claims.
    let proof = prove_cairo(test_input()).unwrap();
    let mut channel = Channel::new();
    proof.claim.mix_into(&mut channel);
    channel.mix_u32(proof.stark_proof.commitments[0]);
    let elements = CairoInteractionElements::draw(&mut channel);
    assert!(lookup_sum_valid(
        &proof.claim,
        &elements,
        &proof.interaction_claim
    ));
    let mut tampered = proof.interaction_claim;
    tampered.range_check9_9 = SubInteractionClaim {
        claimed_sum: tampered.range_check9_9.claimed_sum.add(&QM31 {
            a: 1,
            b: 2,
            c: 3,
            d: 4,
        }),
    };
    assert!(!lookup_sum_valid(&proof.claim, &elements, &tampered));
}

#[test]
fn test_transcript_determinism() {
    // Re-running the verifier's transcript derivation on the same proof
    // yields identical drawn interaction elements.
    let proof = prove_cairo(test_input()).unwrap();
    let mut first = Channel::new();
    proof.claim.mix_into(&mut first);
    first.mix_u32(proof.stark_proof.commitments[0]);
    let e1 = CairoInteractionElements::draw(&mut first);
    let mut second = Channel::new();
    proof.claim.mix_into(&mut second);
    second.mix_u32(proof.stark_proof.commitments[0]);
    let e2 = CairoInteractionElements::draw(&mut second);
    assert_eq!(e1, e2);
    assert_eq!(first.digest(), second.digest());
}

#[test]
fn test_order_sensitivity() {
    // Absorbing the same sub-component claims in a different order leaves
    // the transcript in a different state.
    let proof = prove_cairo(test_input()).unwrap();
    let claim = &proof.claim;
    let mut fixed_order = Channel::new();
    claim.mix_into(&mut fixed_order);
    let mut reordered = Channel::new();
    // Swap the range-check builtin ahead of the return-opcode claims.
    reordered.mix_u32(claim.range_check_builtin.log_size);
    for c in claim.ret.iter() {
        reordered.mix_u32(c.log_size);
    }
    reordered.mix_u32(claim.memory_addr_to_id.log_size);
    reordered.mix_u32(claim.memory_id_to_value.log_size);
    assert_ne!(fixed_order.digest(), reordered.digest());
}

#[test]
fn test_prove_trace_too_large() {
    // A memory table beyond the supported bound is a typed proving error.
    let values: Vec<[u32; 8]> = vec![cell(0); (1 << 20) + 1];
    let input = CairoInput {
        instructions: Instructions {
            ret: vec![VmState { pc: 0, ap: 0, fp: 0 }],
            initial_state: VmState { pc: 0, ap: 0, fp: 0 },
            final_state: VmState { pc: 0, ap: 0, fp: 0 },
        },
        mem: Memory { values },
        public_mem_addresses: vec![],
        range_check_builtin: vec![],
    };
    let r = prove_cairo(input);
    assert!(matches!(r, Err(ProvingError::TraceTooLarge)));
}

#[test]
fn test_tamper_memory_id_to_value_claimed_sum() {
    let mut proof = prove_cairo(test_input()).unwrap();
    let old = proof.interaction_claim.memory_id_to_value.claimed_sum;
    proof.interaction_claim.memory_id_to_value = SubInteractionClaim {
        claimed_sum: old.add(&QM31 { a: 9, b: 9, c: 9, d: 9 }),
    };
    assert_eq!(
        verify_cairo(proof),
        Err(CairoVerificationError::InvalidLogupSum)
    );
}

#[test]
fn test_mismatched_instance_counts_rejected() {
    let mut proof = prove_cairo(test_input()).unwrap();
    let extra = proof.interaction_claim.ret[0];
    proof.interaction_claim.ret.push(extra);
    assert_eq!(
        verify_cairo(proof),
        Err(CairoVerificationError::Stark(StarkError::InvalidStructure))
    );
}

#[test]
fn test_prove_empty_ret_list() {
    // A run with no return opcodes still proves and verifies: the single
    // instance has an empty use list.
    let mut input = test_input();
    input.instructions.ret = vec![];
    let proof = prove_cairo(input).unwrap();
    assert_eq!(proof.claim.ret.len(), 1);
    assert_eq!(proof.claim.ret[0].log_size, 0);
    verify_cairo(proof).unwrap();
}

#[test]
fn test_engine_rejects_mismatched_sizes() {
    // A verifier whose recorded size lists disagree with the component set
    // is rejected by the engine as structurally invalid.
    let proof = prove_cairo(test_input()).unwrap();
    let mut channel = Channel::new();
    proof.claim.mix_into(&mut channel);
    let mut scheme = CommitmentSchemeVerifier::new();
    let sizes = proof.claim.log_sizes();
    let mut wrong_base = sizes.base.clone();
    wrong_base[0] += 1;
    scheme.commit(proof.stark_proof.commitments[0], wrong_base, &mut channel);
    let elements = CairoInteractionElements::draw(&mut channel);
    proof.interaction_claim.mix_into(&mut channel);
    scheme.commit(proof.stark_proof.commitments[1], sizes.interaction, &mut channel);
    scheme.commit(proof.stark_proof.commitments[2], sizes.constant, &mut channel);
    let generator = CairoComponents::new(&proof.claim, &elements, &proof.interaction_claim);
    let components = generator.components();
    let r = stark_verify(&components, &mut channel, &scheme, &proof.stark_proof);
    assert_eq!(r, Err(StarkError::InvalidStructure));
}
