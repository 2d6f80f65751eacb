//! The polynomial-commitment proving and verifying engine this library
//! ships with. The prover bounds every component's domain against the
//! precomputed cache, draws the out-of-domain sample from the transcript,
//! and binds the proof to a transcript checkpoint; the verifier checks the
//! declared column sizes of every recorded tree against the component set,
//! then reproduces the checkpoint. Both sides walk the transcript
//! identically; any divergence shows up as a checkpoint mismatch.

use vstd::prelude::*;
use crate::channel::{digest_s, draw_words_s, Channel};
use crate::components::{comps_base_sizes_s, comps_inter_sizes_s, CairoComponent};
use crate::pcs::{CommitmentSchemeProver, CommitmentSchemeVerifier, CommittedTree};

verus! {

/// A failure surfaced by the proving engine.
#[derive(Clone, Copy, PartialEq, Eq, Structural, Debug)]
pub enum ProvingError {
    TraceTooLarge,
}

/// A failure surfaced by the verifying engine.
#[derive(Clone, Copy, PartialEq, Eq, Structural, Debug)]
pub enum StarkError {
    InvalidStructure,
    OodsNotMatching,
}

/// The opaque proof blob: the tree roots and the prover's transcript
/// checkpoint after the out-of-domain draw.
#[derive(Debug)]
pub struct StarkProof {
    pub commitments: Vec<u32>,
    pub oods_check: u32,
}

/// The transcript checkpoint after one out-of-domain draw from history `w`.
pub open spec fn oods_s(w: Seq<u32>) -> u32 {
    digest_s(draw_words_s(w, 1)) as u32
}

/// The verifier's recorded trees carry exactly the column sizes the
/// component set declares, tree by tree.
pub open spec fn sizes_match_s(cs: Seq<CairoComponent>, trees: Seq<CommittedTree>) -> bool {
    &&& trees.len() == 3
    &&& trees[0].sizes@ == comps_base_sizes_s(cs)
    &&& trees[1].sizes@ == comps_inter_sizes_s(cs)
    &&& trees[2].sizes@ == comps_base_sizes_s(cs)
}

/// Every component's evaluation domain fits the precomputed cache.
pub open spec fn domains_fit_s(cs: Seq<CairoComponent>, log_blowup: u32, log_domain: u32) -> bool {
    forall|i: int|
        0 <= i < cs.len() ==> #[trigger] cs[i].log_size + log_blowup + 2 <= log_domain
}

/// Produce the opening proof over all components jointly. Fails if some
/// component's domain exceeds the precomputed cache.
pub fn stark_prove(
    components: &Vec<CairoComponent>,
    channel: &mut Channel,
    commitment_scheme: &CommitmentSchemeProver,
) -> (r: Result<StarkProof, ProvingError>)
    ensures
        r is Ok <==> domains_fit_s(
            components@,
            commitment_scheme.config.log_blowup_factor,
            commitment_scheme.log_domain,
        ),
        r is Ok ==> {
            &&& r.unwrap().commitments@ == commitment_scheme.roots@
            &&& r.unwrap().oods_check == oods_s(old(channel)@)
            &&& final(channel)@ == draw_words_s(old(channel)@, 1)
        },
        r is Err ==> r.unwrap_err() == ProvingError::TraceTooLarge && final(channel)@ == old(
            channel,
        )@,
{
    let mut i: usize = 0;
    while i < components.len()
        invariant
            i <= components.len(),
            forall|k: int|
                0 <= k < i ==> #[trigger] components@[k].log_size
                    + commitment_scheme.config.log_blowup_factor + 2
                    <= commitment_scheme.log_domain,
        decreases components.len() - i,
    {
        let c = components[i];
        if c.log_size as u64 + commitment_scheme.config.log_blowup_factor as u64 + 2
            > commitment_scheme.log_domain as u64 {
            return Err(ProvingError::TraceTooLarge);
        }
        i = i + 1;
    }
    let _oods = channel.draw_m31();
    let d = channel.digest();
    let commitments = copy_words(&commitment_scheme.roots);
    Ok(StarkProof { commitments, oods_check: d })
}

/// Verify the opening proof: check the declared column sizes of every
/// recorded tree against the component set, then replay the out-of-domain
/// draw and compare the transcript checkpoint recorded in the proof.
pub fn stark_verify(
    components: &Vec<CairoComponent>,
    channel: &mut Channel,
    commitment_scheme: &CommitmentSchemeVerifier,
    proof: &StarkProof,
) -> (r: Result<(), StarkError>)
    ensures
        final(channel)@ == draw_words_s(old(channel)@, 1),
        r is Ok <==> sizes_match_s(components@, commitment_scheme.trees@) && proof.oods_check
            == oods_s(old(channel)@),
        r is Err ==> (r.unwrap_err() == StarkError::InvalidStructure <==> !sizes_match_s(
            components@,
            commitment_scheme.trees@,
        )),
{
    let _oods = channel.draw_m31();
    let d = channel.digest();
    if commitment_scheme.trees.len() != 3 {
        return Err(StarkError::InvalidStructure);
    }
    let base = comp_base_sizes(components);
    let inter = comp_inter_sizes(components);
    let base_ok = vecs_equal(&commitment_scheme.trees[0].sizes, &base);
    let inter_ok = vecs_equal(&commitment_scheme.trees[1].sizes, &inter);
    let constant_ok = vecs_equal(&commitment_scheme.trees[2].sizes, &base);
    if !(base_ok && inter_ok && constant_ok) {
        return Err(StarkError::InvalidStructure);
    }
    if proof.oods_check != d {
        return Err(StarkError::OodsNotMatching);
    }
    Ok(())
}

/// The base-tree (and constant-tree) sizes a component list declares.
fn comp_base_sizes(components: &Vec<CairoComponent>) -> (r: Vec<u32>)
    ensures
        r@ == comps_base_sizes_s(components@),
{
    let mut r: Vec<u32> = Vec::new();
    let mut i: usize = 0;
    proof {
        assert(components@.take(0) =~= Seq::<CairoComponent>::empty());
        assert(r@ =~= comps_base_sizes_s(components@.take(0)));
    }
    while i < components.len()
        invariant
            i <= components.len(),
            r@ == comps_base_sizes_s(components@.take(i as int)),
        decreases components.len() - i,
    {
        r.push(components[i].log_size);
        proof {
            assert(components@.take(i as int + 1).drop_last() =~= components@.take(i as int));
            assert(components@.take(i as int + 1).last() == components@[i as int]);
            assert(r@ =~= comps_base_sizes_s(components@.take(i as int + 1)));
        }
        i = i + 1;
    }
    proof {
        assert(components@.take(components.len() as int) =~= components@);
    }
    r
}

/// The interaction-tree sizes a component list declares: four per instance.
fn comp_inter_sizes(components: &Vec<CairoComponent>) -> (r: Vec<u32>)
    ensures
        r@ == comps_inter_sizes_s(components@),
{
    let mut r: Vec<u32> = Vec::new();
    let mut i: usize = 0;
    proof {
        assert(components@.take(0) =~= Seq::<CairoComponent>::empty());
        assert(r@ =~= comps_inter_sizes_s(components@.take(0)));
    }
    while i < components.len()
        invariant
            i <= components.len(),
            r@ == comps_inter_sizes_s(components@.take(i as int)),
        decreases components.len() - i,
    {
        let l = components[i].log_size;
        r.push(l);
        r.push(l);
        r.push(l);
        r.push(l);
        proof {
            assert(components@.take(i as int + 1).drop_last() =~= components@.take(i as int));
            assert(components@.take(i as int + 1).last() == components@[i as int]);
            assert(r@ =~= comps_inter_sizes_s(components@.take(i as int + 1)));
        }
        i = i + 1;
    }
    proof {
        assert(components@.take(components.len() as int) =~= components@);
    }
    r
}

fn vecs_equal(a: &Vec<u32>, b: &Vec<u32>) -> (r: bool)
    ensures
        r <==> a@ =~= b@,
{
    if a.len() != b.len() {
        return false;
    }
    let mut i: usize = 0;
    while i < a.len()
        invariant
            i <= a.len(),
            a@.len() == b@.len(),
            forall|k: int| 0 <= k < i ==> a@[k] == #[trigger] b@[k],
        decreases a.len() - i,
    {
        if a[i] != b[i] {
            return false;
        }
        i = i + 1;
    }
    true
}

fn copy_words(v: &Vec<u32>) -> (r: Vec<u32>)
    ensures
        r@ == v@,
{
    let mut r: Vec<u32> = Vec::new();
    let mut i: usize = 0;
    while i < v.len()
        invariant
            i <= v.len(),
            r@ == v@.take(i as int),
        decreases v.len() - i,
    {
        r.push(v[i]);
        proof {
            assert(v@.take(i as int + 1) =~= v@.take(i as int).push(v@[i as int]));
        }
        i = i + 1;
    }
    proof {
        assert(v@.take(v.len() as int) =~= v@);
    }
    r
}

} // verus!
