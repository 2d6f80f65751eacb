//! The commitment-scheme capability: tree builders collect column data, a
//! commit binds one tree's data to a root that is absorbed into the
//! transcript. The verifier side records each declared root and column-size
//! list while absorbing the same root, keeping both transcripts in step.

use vstd::prelude::*;
use crate::channel::{digest_s, Channel};

verus! {

/// Proof-system parameters threaded explicitly through both pipelines.
#[derive(Clone, Copy, PartialEq, Eq, Structural, Debug)]
pub struct PcsConfig {
    pub log_blowup_factor: u32,
}

impl Default for PcsConfig {
    fn default() -> (r: PcsConfig)
        ensures
            r.log_blowup_factor == 1,
    {
        PcsConfig { log_blowup_factor: 1 }
    }
}

/// The precomputed domain evaluation cache, sized once per proving run to
/// the largest supported trace.
#[derive(Clone, Copy, PartialEq, Eq, Structural, Debug)]
pub struct DomainCache {
    pub log_size: u32,
}

/// Precompute the shared evaluation cache for domains up to `log_size`.
pub fn precompute_twiddles(log_size: u32) -> (r: DomainCache)
    ensures
        r.log_size == log_size,
{
    DomainCache { log_size }
}

/// The root binding one tree's column data: the digest of the words written
/// into its builder.
pub open spec fn tree_root_s(ws: Seq<u32>) -> u32 {
    digest_s(ws) as u32
}

/// Collects the column data of one commitment tree.
pub struct TreeBuilder {
    pub words: Vec<u32>,
}

impl TreeBuilder {
    pub fn new() -> (r: TreeBuilder)
        ensures
            r.words@ =~= Seq::<u32>::empty(),
    {
        TreeBuilder { words: Vec::new() }
    }

    pub fn push_word(&mut self, w: u32)
        ensures
            final(self).words@ == old(self).words@.push(w),
    {
        self.words.push(w);
    }
}

/// The prover-side commitment scheme: the roots of the trees committed so
/// far, in commitment order.
pub struct CommitmentSchemeProver {
    pub roots: Vec<u32>,
    pub config: PcsConfig,
    pub log_domain: u32,
}

impl CommitmentSchemeProver {
    pub fn new(config: PcsConfig, twiddles: &DomainCache) -> (r: CommitmentSchemeProver)
        ensures
            r.roots@ =~= Seq::<u32>::empty(),
            r.config == config,
            r.log_domain == twiddles.log_size,
    {
        CommitmentSchemeProver { roots: Vec::new(), config, log_domain: twiddles.log_size }
    }

    /// Commit one tree: bind its data to a root, absorb the root, record it.
    pub fn commit(&mut self, tb: TreeBuilder, channel: &mut Channel) -> (root: u32)
        ensures
            root == tree_root_s(tb.words@),
            final(self).roots@ == old(self).roots@.push(root),
            final(self).config == old(self).config,
            final(self).log_domain == old(self).log_domain,
            final(channel)@ == old(channel)@.push(root),
    {
        let root = channel_root(&tb);
        channel.mix_u32(root);
        self.roots.push(root);
        root
    }
}

fn channel_root(tb: &TreeBuilder) -> (r: u32)
    ensures
        r == tree_root_s(tb.words@),
{
    let c = root_channel(tb);
    c.digest()
}

fn root_channel(tb: &TreeBuilder) -> (r: Channel)
    ensures
        r@ == tb.words@,
{
    let mut c = Channel::new();
    let mut i: usize = 0;
    while i < tb.words.len()
        invariant
            i <= tb.words.len(),
            c@ == tb.words@.take(i as int),
        decreases tb.words.len() - i,
    {
        c.mix_u32(tb.words[i]);
        proof {
            assert(tb.words@.take(i as int + 1) =~= tb.words@.take(i as int).push(
                tb.words@[i as int],
            ));
        }
        i = i + 1;
    }
    proof {
        assert(tb.words@.take(tb.words.len() as int) =~= tb.words@);
    }
    c
}

/// One tree as the verifier sees it: the declared root and column sizes.
pub struct CommittedTree {
    pub root: u32,
    pub sizes: Vec<u32>,
}

/// The verifier-side commitment scheme: declared roots and sizes, recorded
/// in commitment order while the roots are absorbed.
pub struct CommitmentSchemeVerifier {
    pub trees: Vec<CommittedTree>,
}

impl CommitmentSchemeVerifier {
    pub fn new() -> (r: CommitmentSchemeVerifier)
        ensures
            r.trees@ =~= Seq::<CommittedTree>::empty(),
    {
        CommitmentSchemeVerifier { trees: Vec::new() }
    }

    /// Record one declared commitment and absorb its root.
    pub fn commit(&mut self, root: u32, sizes: Vec<u32>, channel: &mut Channel)
        ensures
            final(self).trees@ == old(self).trees@.push((CommittedTree { root, sizes })),
            final(channel)@ == old(channel)@.push(root),
    {
        channel.mix_u32(root);
        self.trees.push(CommittedTree { root, sizes });
    }
}

} // verus!
