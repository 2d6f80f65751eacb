//! Per-sub-component claim generation. Shared lookup tables are explicit
//! two-phase objects: a collector phase in which consumer sub-components
//! register the tuples they use, and a finalize phase (`write_trace`, which
//! consumes the generator) that produces the claim and the interaction
//! prover. Ownership makes registering after finalization impossible.

use vstd::prelude::*;
use crate::claims::{
    MemoryAddrToIdClaim, MemoryIdToValueClaim, RangeCheck99Claim, RangeCheckBuiltinClaim,
    RetClaim, VmState, RC99_LOG_SIZE,
};
use crate::felt::{limbs_s, split_f252};
use crate::interaction::SubInteractionClaim;
use crate::logup::{mem_terms_s, rc_terms_s, sum_mem_terms, sum_rc_terms};
use crate::pcs::TreeBuilder;
use crate::qm31::{qneg_s, qsub_s, qsum_s, qv, qm31_wf};
use crate::relations::{rel_wf, RelationElements};

verus! {

/// The VM memory of one run; a value's address is its index.
pub struct Memory {
    pub values: Vec<[u32; 8]>,
}

/// The decoded instruction information this layer consumes.
pub struct Instructions {
    pub ret: Vec<VmState>,
    pub initial_state: VmState,
    pub final_state: VmState,
}

/// The execution-trace bundle handed to the prover.
pub struct CairoInput {
    pub instructions: Instructions,
    pub mem: Memory,
    pub public_mem_addresses: Vec<u32>,
    pub range_check_builtin: Vec<u32>,
}

/// The memory entries at a list of addresses, in order.
pub open spec fn addr_pairs_s(mem: Seq<[u32; 8]>, addrs: Seq<u32>) -> Seq<(u32, [u32; 8])> {
    Seq::new(addrs.len(), |i: int| (addrs[i], mem[addrs[i] as int]))
}

pub open spec fn addrs_ok_s(mem: Seq<[u32; 8]>, addrs: Seq<u32>) -> bool {
    forall|i: int| 0 <= i < addrs.len() ==> (#[trigger] addrs[i]) < mem.len()
}

/// The program counters of a list of VM states.
pub open spec fn ret_pcs_s(states: Seq<VmState>) -> Seq<u32> {
    Seq::new(states.len(), |i: int| states[i].pc)
}

/// The fourteen 9-bit limb pairs of one 252-bit value.
pub open spec fn pairs_of_value_s(v: [u32; 8]) -> Seq<(u32, u32)> {
    Seq::new(14, |k: int| (limbs_s(v@)[2 * k], limbs_s(v@)[2 * k + 1]))
}

/// The limb pairs of a list of memory entries, in registration order.
pub open spec fn rc_pairs_of_s(reg: Seq<(u32, [u32; 8])>) -> Seq<(u32, u32)>
    decreases reg.len(),
{
    if reg.len() == 0 {
        Seq::<(u32, u32)>::empty()
    } else {
        rc_pairs_of_s(reg.drop_last()) + pairs_of_value_s(reg.last().1)
    }
}

/// The least `k` with `2^k >= n`; zero for empty traces.
pub open spec fn log2_ceil_s(n: nat) -> nat
    decreases n,
{
    if n <= 1 {
        0
    } else {
        (1 + log2_ceil_s(((n + 1) / 2) as nat)) as nat
    }
}

/// Bound on every per-run list, so sizes fit the claim's word fields.
pub const MAX_TRACE_LEN: usize = 0x1000_0000;

/// Every registered memory entry contributes fourteen limb pairs.
pub proof fn lemma_rc_pairs_len(reg: Seq<(u32, [u32; 8])>)
    ensures
        rc_pairs_of_s(reg).len() == 14 * reg.len(),
    decreases reg.len(),
{
    if reg.len() > 0 {
        lemma_rc_pairs_len(reg.drop_last());
    }
}

pub fn log2_ceil(n: usize) -> (r: u32)
    requires
        n <= MAX_TRACE_LEN,
    ensures
        r as nat == log2_ceil_s(n as nat),
{
    if n <= 1 {
        return 0;
    }
    let mut k: u32 = 0;
    let mut p: usize = n;
    while p > 1
        invariant
            1 <= p,
            k + p <= 0x1000_0001,
            log2_ceil_s(n as nat) == k + log2_ceil_s(p as nat),
        decreases p,
    {
        let p2 = p / 2 + p % 2;
        proof {
            assert(p2 == (p + 1) / 2);
            assert(log2_ceil_s(p as nat) == 1 + log2_ceil_s(p2 as nat));
        }
        p = p2;
        k = k + 1;
    }
    k
}

/// Collector and finalizer of the 9-bit range-check table.
pub struct RangeCheck99ClaimGenerator {
    pub pairs: Vec<(u32, u32)>,
}

/// Finalized 9-bit range-check table, ready for the interaction stage.
pub struct RangeCheck99InteractionProver {
    pub pairs: Vec<(u32, u32)>,
}

impl RangeCheck99ClaimGenerator {
    pub fn new() -> (r: RangeCheck99ClaimGenerator)
        ensures
            r.pairs@ =~= Seq::<(u32, u32)>::empty(),
    {
        RangeCheck99ClaimGenerator { pairs: Vec::new() }
    }

    /// Register one consumed limb pair.
    pub fn add_inputs(&mut self, a: u32, b: u32)
        ensures
            final(self).pairs@ == old(self).pairs@.push((a, b)),
    {
        self.pairs.push((a, b));
    }

    /// Finalize the table: write its trace and emit its claim.
    pub fn write_trace(self, tb: &mut TreeBuilder) -> (r: (
        RangeCheck99Claim,
        RangeCheck99InteractionProver,
    ))
        requires
            self.pairs@.len() <= 0xe000_0000,
        ensures
            r.1.pairs@ == self.pairs@,
            final(tb).words@ == old(tb).words@ + seq![self.pairs@.len() as u32, RC99_LOG_SIZE],
    {
        tb.push_word(self.pairs.len() as u32);
        tb.push_word(RC99_LOG_SIZE);
        proof {
            assert(final(tb).words@ =~= old(tb).words@ + seq![
                self.pairs@.len() as u32,
                RC99_LOG_SIZE,
            ]);
        }
        (RangeCheck99Claim {}, RangeCheck99InteractionProver { pairs: self.pairs })
    }
}

impl RangeCheck99InteractionProver {
    /// The table supplies every registered pair: its claimed sum is the
    /// negated sum of the registered contributions.
    pub fn write_interaction_trace(
        self,
        tb: &mut TreeBuilder,
        range9_9_elements: &RelationElements,
    ) -> (r: SubInteractionClaim)
        requires
            rel_wf(*range9_9_elements),
        ensures
            qv(r.claimed_sum) == qneg_s(qsum_s(rc_terms_s(*range9_9_elements, self.pairs@))),
            qm31_wf(r.claimed_sum),
            final(tb).words@ == old(tb).words@ + crate::channel::qm31_words_s(r.claimed_sum),
    {
        let cs = sum_rc_terms(range9_9_elements, &self.pairs).neg();
        tb.push_word(cs.a);
        tb.push_word(cs.b);
        tb.push_word(cs.c);
        tb.push_word(cs.d);
        proof {
            assert(final(tb).words@ =~= old(tb).words@ + crate::channel::qm31_words_s(cs));
        }
        SubInteractionClaim { claimed_sum: cs }
    }
}

/// Collector and finalizer of the memory id-to-value table.
pub struct MemoryIdToValueClaimGenerator {
    pub mem: Memory,
    pub registered: Vec<(u32, [u32; 8])>,
}

/// Finalized memory table, with its registered uses and the limb pairs it
/// registered into the range-check table.
pub struct MemoryIdToValueInteractionProver {
    pub uses: Vec<(u32, [u32; 8])>,
    pub rc_pairs: Vec<(u32, u32)>,
}

impl MemoryIdToValueClaimGenerator {
    pub fn new(mem: Memory) -> (r: MemoryIdToValueClaimGenerator)
        ensures
            r.mem == mem,
            r.registered@ =~= Seq::<(u32, [u32; 8])>::empty(),
    {
        MemoryIdToValueClaimGenerator { mem, registered: Vec::new() }
    }

    /// Register one consumed memory address.
    pub fn add_inputs(&mut self, addr: u32)
        requires
            (addr as int) < old(self).mem.values@.len(),
        ensures
            final(self).mem == old(self).mem,
            final(self).registered@ == old(self).registered@.push(
                (addr, old(self).mem.values@[addr as int]),
            ),
    {
        let v = self.mem.values[addr as usize];
        self.registered.push((addr, v));
    }

    /// Finalize the table: range-check the limbs of every registered value
    /// through the shared 9-bit collector, write the trace, emit the claim.
    pub fn write_trace(self, tb: &mut TreeBuilder, rc9: &mut RangeCheck99ClaimGenerator) -> (r: (
        MemoryIdToValueClaim,
        MemoryIdToValueInteractionProver,
    ))
        requires
            self.registered@.len() <= MAX_TRACE_LEN,
        ensures
            r.0.log_size as nat == log2_ceil_s(self.registered@.len() as nat),
            r.1.uses@ == self.registered@,
            r.1.rc_pairs@ == rc_pairs_of_s(self.registered@),
            final(rc9).pairs@ == old(rc9).pairs@ + rc_pairs_of_s(self.registered@),
            final(tb).words@ == old(tb).words@ + seq![
                self.registered@.len() as u32,
                log2_ceil_s(self.registered@.len() as nat) as u32,
            ],
    {
        let log_size = log2_ceil(self.registered.len());
        tb.push_word(self.registered.len() as u32);
        tb.push_word(log_size);
        proof {
            assert(final(tb).words@ =~= old(tb).words@ + seq![
                self.registered@.len() as u32,
                log2_ceil_s(self.registered@.len() as nat) as u32,
            ]);
        }
        let ghost rc0 = rc9.pairs@;
        let mut rc_pairs: Vec<(u32, u32)> = Vec::new();
        let mut i: usize = 0;
        proof {
            assert(rc_pairs_of_s(self.registered@.take(0)) =~= Seq::<(u32, u32)>::empty());
            assert(rc0 + rc_pairs@ =~= rc0);
        }
        while i < self.registered.len()
            invariant
                i <= self.registered.len(),
                rc_pairs@ == rc_pairs_of_s(self.registered@.take(i as int)),
                rc9.pairs@ == rc0 + rc_pairs@,
            decreases self.registered.len() - i,
        {
            let entry = self.registered[i];
            let limbs = split_f252(&entry.1);
            let ghost pv = pairs_of_value_s(self.registered@[i as int].1);
            let mut k: usize = 0;
            proof {
                assert(rc_pairs@ + pv.take(0) =~= rc_pairs@);
            }
            let ghost rp0 = rc_pairs@;
            while k < 14
                invariant
                    k <= 14,
                    limbs@ =~= limbs_s(self.registered@[i as int].1@),
                    pv == pairs_of_value_s(self.registered@[i as int].1),
                    i < self.registered.len(),
                    entry == self.registered@[i as int],
                    rc_pairs@ == rp0 + pv.take(k as int),
                    rc9.pairs@ == rc0 + rc_pairs@,
                decreases 14 - k,
            {
                let a = limbs[2 * k];
                let b = limbs[2 * k + 1];
                rc9.add_inputs(a, b);
                rc_pairs.push((a, b));
                proof {
                    assert(pv[k as int] == (a, b));
                    assert(pv.take(k as int + 1) =~= pv.take(k as int).push(pv[k as int]));
                    assert(rc_pairs@ =~= rp0 + pv.take(k as int + 1));
                    assert(rc9.pairs@ =~= rc0 + rc_pairs@);
                }
                k = k + 1;
            }
            proof {
                assert(pv.take(14) =~= pv);
                assert(self.registered@.take(i as int + 1).drop_last() =~= self.registered@.take(
                    i as int,
                ));
                assert(self.registered@.take(i as int + 1).last() == self.registered@[i as int]);
                assert(rc_pairs@ =~= rc_pairs_of_s(self.registered@.take(i as int + 1)));
            }
            i = i + 1;
        }
        proof {
            assert(self.registered@.take(self.registered.len() as int) =~= self.registered@);
        }
        (
            MemoryIdToValueClaim { log_size },
            MemoryIdToValueInteractionProver { uses: self.registered, rc_pairs },
        )
    }
}

impl MemoryIdToValueInteractionProver {
    /// The table consumes its range-checked limb pairs and supplies every
    /// registered memory use: claimed sum = range-check side minus memory
    /// side.
    pub fn write_interaction_trace(
        self,
        tb: &mut TreeBuilder,
        lookup_elements: &RelationElements,
        range9_9_elements: &RelationElements,
    ) -> (r: SubInteractionClaim)
        requires
            rel_wf(*lookup_elements),
            rel_wf(*range9_9_elements),
        ensures
            qv(r.claimed_sum) == qsub_s(
                qsum_s(rc_terms_s(*range9_9_elements, self.rc_pairs@)),
                qsum_s(mem_terms_s(*lookup_elements, self.uses@)),
            ),
            qm31_wf(r.claimed_sum),
            final(tb).words@ == old(tb).words@ + crate::channel::qm31_words_s(r.claimed_sum),
    {
        let rc_side = sum_rc_terms(range9_9_elements, &self.rc_pairs);
        let mem_side = sum_mem_terms(lookup_elements, &self.uses);
        let cs = rc_side.sub(&mem_side);
        tb.push_word(cs.a);
        tb.push_word(cs.b);
        tb.push_word(cs.c);
        tb.push_word(cs.d);
        proof {
            assert(final(tb).words@ =~= old(tb).words@ + crate::channel::qm31_words_s(cs));
        }
        SubInteractionClaim { claimed_sum: cs }
    }
}

/// Claim generator of the return-opcode instances.
pub struct RetClaimGenerator {
    pub states: Vec<VmState>,
}

/// Finalized return-opcode trace, with the memory uses it registered.
pub struct RetInteractionProver {
    pub uses: Vec<(u32, [u32; 8])>,
}

impl RetClaimGenerator {
    pub fn new(states: Vec<VmState>) -> (r: RetClaimGenerator)
        ensures
            r.states@ == states@,
    {
        RetClaimGenerator { states }
    }

    /// Write the base trace, registering every instruction fetch into the
    /// shared memory table collector.
    pub fn write_trace(
        self,
        tb: &mut TreeBuilder,
        idval: &mut MemoryIdToValueClaimGenerator,
    ) -> (r: (RetClaim, RetInteractionProver))
        requires
            self.states@.len() <= MAX_TRACE_LEN,
            addrs_ok_s(old(idval).mem.values@, ret_pcs_s(self.states@)),
        ensures
            r.0.log_size as nat == log2_ceil_s(self.states@.len() as nat),
            r.1.uses@ == addr_pairs_s(old(idval).mem.values@, ret_pcs_s(self.states@)),
            final(idval).mem == old(idval).mem,
            final(idval).registered@ == old(idval).registered@ + addr_pairs_s(
                old(idval).mem.values@,
                ret_pcs_s(self.states@),
            ),
            final(tb).words@ == old(tb).words@ + seq![
                self.states@.len() as u32,
                log2_ceil_s(self.states@.len() as nat) as u32,
            ],
    {
        let log_size = log2_ceil(self.states.len());
        tb.push_word(self.states.len() as u32);
        tb.push_word(log_size);
        proof {
            assert(final(tb).words@ =~= old(tb).words@ + seq![
                self.states@.len() as u32,
                log2_ceil_s(self.states@.len() as nat) as u32,
            ]);
        }
        let uses = register_addr_uses(&ret_pcs_vec(&self.states), idval);
        (RetClaim { log_size }, RetInteractionProver { uses })
    }
}

impl RetInteractionProver {
    /// The instances consume their registered memory uses.
    pub fn write_interaction_trace(
        self,
        tb: &mut TreeBuilder,
        lookup_elements: &RelationElements,
    ) -> (r: SubInteractionClaim)
        requires
            rel_wf(*lookup_elements),
        ensures
            qv(r.claimed_sum) == qsum_s(mem_terms_s(*lookup_elements, self.uses@)),
            qm31_wf(r.claimed_sum),
            final(tb).words@ == old(tb).words@ + crate::channel::qm31_words_s(r.claimed_sum),
    {
        let cs = sum_mem_terms(lookup_elements, &self.uses);
        tb.push_word(cs.a);
        tb.push_word(cs.b);
        tb.push_word(cs.c);
        tb.push_word(cs.d);
        proof {
            assert(final(tb).words@ =~= old(tb).words@ + crate::channel::qm31_words_s(cs));
        }
        SubInteractionClaim { claimed_sum: cs }
    }
}

/// Claim generator of the range-check builtin segment.
pub struct RangeCheckBuiltinClaimGenerator {
    pub addrs: Vec<u32>,
}

/// Finalized range-check builtin trace, with its registered memory uses.
pub struct RangeCheckBuiltinInteractionProver {
    pub uses: Vec<(u32, [u32; 8])>,
}

impl RangeCheckBuiltinClaimGenerator {
    pub fn new(addrs: Vec<u32>) -> (r: RangeCheckBuiltinClaimGenerator)
        ensures
            r.addrs@ == addrs@,
    {
        RangeCheckBuiltinClaimGenerator { addrs }
    }

    /// Write the base trace, registering every builtin cell into the shared
    /// memory table collector.
    pub fn write_trace(
        self,
        tb: &mut TreeBuilder,
        idval: &mut MemoryIdToValueClaimGenerator,
    ) -> (r: (RangeCheckBuiltinClaim, RangeCheckBuiltinInteractionProver))
        requires
            self.addrs@.len() <= MAX_TRACE_LEN,
            addrs_ok_s(old(idval).mem.values@, self.addrs@),
        ensures
            r.0.log_size as nat == log2_ceil_s(self.addrs@.len() as nat),
            r.1.uses@ == addr_pairs_s(old(idval).mem.values@, self.addrs@),
            final(idval).mem == old(idval).mem,
            final(idval).registered@ == old(idval).registered@ + addr_pairs_s(
                old(idval).mem.values@,
                self.addrs@,
            ),
            final(tb).words@ == old(tb).words@ + seq![
                self.addrs@.len() as u32,
                log2_ceil_s(self.addrs@.len() as nat) as u32,
            ],
    {
        let log_size = log2_ceil(self.addrs.len());
        tb.push_word(self.addrs.len() as u32);
        tb.push_word(log_size);
        proof {
            assert(final(tb).words@ =~= old(tb).words@ + seq![
                self.addrs@.len() as u32,
                log2_ceil_s(self.addrs@.len() as nat) as u32,
            ]);
        }
        let uses = register_addr_uses(&self.addrs, idval);
        (RangeCheckBuiltinClaim { log_size }, RangeCheckBuiltinInteractionProver { uses })
    }
}

impl RangeCheckBuiltinInteractionProver {
    /// The builtin consumes its registered memory uses.
    pub fn write_interaction_trace(
        self,
        tb: &mut TreeBuilder,
        lookup_elements: &RelationElements,
    ) -> (r: SubInteractionClaim)
        requires
            rel_wf(*lookup_elements),
        ensures
            qv(r.claimed_sum) == qsum_s(mem_terms_s(*lookup_elements, self.uses@)),
            qm31_wf(r.claimed_sum),
            final(tb).words@ == old(tb).words@ + crate::channel::qm31_words_s(r.claimed_sum),
    {
        let cs = sum_mem_terms(lookup_elements, &self.uses);
        tb.push_word(cs.a);
        tb.push_word(cs.b);
        tb.push_word(cs.c);
        tb.push_word(cs.d);
        proof {
            assert(final(tb).words@ =~= old(tb).words@ + crate::channel::qm31_words_s(cs));
        }
        SubInteractionClaim { claimed_sum: cs }
    }
}

/// Claim generator of the memory address-to-id table.
pub struct MemoryAddrToIdClaimGenerator {
    pub n_entries: usize,
}

/// Finalized address-to-id trace.
pub struct MemoryAddrToIdInteractionProver {}

impl MemoryAddrToIdClaimGenerator {
    pub fn new(mem: &Memory) -> (r: MemoryAddrToIdClaimGenerator)
        ensures
            r.n_entries == mem.values@.len(),
    {
        MemoryAddrToIdClaimGenerator { n_entries: mem.values.len() }
    }

    pub fn write_trace(self, tb: &mut TreeBuilder) -> (r: (
        MemoryAddrToIdClaim,
        MemoryAddrToIdInteractionProver,
    ))
        requires
            self.n_entries <= MAX_TRACE_LEN,
        ensures
            r.0.log_size as nat == log2_ceil_s(self.n_entries as nat),
            final(tb).words@ == old(tb).words@ + seq![
                self.n_entries as u32,
                log2_ceil_s(self.n_entries as nat) as u32,
            ],
    {
        let log_size = log2_ceil(self.n_entries);
        tb.push_word(self.n_entries as u32);
        tb.push_word(log_size);
        proof {
            assert(final(tb).words@ =~= old(tb).words@ + seq![
                self.n_entries as u32,
                log2_ceil_s(self.n_entries as nat) as u32,
            ]);
        }
        (MemoryAddrToIdClaim { log_size }, MemoryAddrToIdInteractionProver {})
    }
}

impl MemoryAddrToIdInteractionProver {
    /// No sub-component registers address uses in the current wiring, so
    /// the table supplies nothing: its claimed sum is the empty sum.
    #[allow(unused_variables)]
    pub fn write_interaction_trace(
        self,
        tb: &mut TreeBuilder,
        lookup_elements: &RelationElements,
    ) -> (r: SubInteractionClaim)
        ensures
            qv(r.claimed_sum) == crate::qm31::qzero_s(),
            qm31_wf(r.claimed_sum),
            final(tb).words@ == old(tb).words@ + crate::channel::qm31_words_s(r.claimed_sum),
    {
        let cs = crate::qm31::QM31::zero();
        tb.push_word(cs.a);
        tb.push_word(cs.b);
        tb.push_word(cs.c);
        tb.push_word(cs.d);
        proof {
            assert(final(tb).words@ =~= old(tb).words@ + crate::channel::qm31_words_s(cs));
        }
        SubInteractionClaim { claimed_sum: cs }
    }
}

/// The program counters of a list of states, as a vector.
fn ret_pcs_vec(states: &Vec<VmState>) -> (r: Vec<u32>)
    ensures
        r@ == ret_pcs_s(states@),
{
    let mut r: Vec<u32> = Vec::new();
    let mut i: usize = 0;
    while i < states.len()
        invariant
            i <= states.len(),
            r@ == ret_pcs_s(states@).take(i as int),
        decreases states.len() - i,
    {
        r.push(states[i].pc);
        proof {
            assert(ret_pcs_s(states@).take(i as int + 1) =~= ret_pcs_s(states@).take(
                i as int,
            ).push(states@[i as int].pc));
        }
        i = i + 1;
    }
    proof {
        assert(ret_pcs_s(states@).take(states.len() as int) =~= ret_pcs_s(states@));
    }
    r
}

/// Register a list of addresses into the memory table collector and return
/// the corresponding (address, value) uses.
pub(crate) fn register_addr_uses(
    addrs: &Vec<u32>,
    idval: &mut MemoryIdToValueClaimGenerator,
) -> (r: Vec<(u32, [u32; 8])>)
    requires
        addrs_ok_s(old(idval).mem.values@, addrs@),
    ensures
        r@ == addr_pairs_s(old(idval).mem.values@, addrs@),
        final(idval).mem == old(idval).mem,
        final(idval).registered@ == old(idval).registered@ + addr_pairs_s(
            old(idval).mem.values@,
            addrs@,
        ),
{
    let ghost reg0 = idval.registered@;
    let ghost pairs = addr_pairs_s(idval.mem.values@, addrs@);
    let mut r: Vec<(u32, [u32; 8])> = Vec::new();
    let mut i: usize = 0;
    proof {
        assert(pairs.take(0) =~= Seq::<(u32, [u32; 8])>::empty());
        assert(reg0 + pairs.take(0) =~= reg0);
    }
    while i < addrs.len()
        invariant
            i <= addrs.len(),
            addrs_ok_s(idval.mem.values@, addrs@),
            idval.mem == old(idval).mem,
            pairs == addr_pairs_s(idval.mem.values@, addrs@),
            r@ == pairs.take(i as int),
            idval.registered@ == reg0 + pairs.take(i as int),
        decreases addrs.len() - i,
    {
        let addr = addrs[i];
        let v = idval.mem.values[addr as usize];
        idval.add_inputs(addr);
        r.push((addr, v));
        proof {
            assert(pairs[i as int] == (addr, v));
            assert(pairs.take(i as int + 1) =~= pairs.take(i as int).push(pairs[i as int]));
            assert(idval.registered@ =~= reg0 + pairs.take(i as int + 1));
        }
        i = i + 1;
    }
    proof {
        assert(pairs.take(addrs.len() as int) =~= pairs);
    }
    r
}

} // verus!
