//! The component set: one bound instance per sub-component occurrence,
//! assigned disjoint trace-column regions by a single shared allocator, in
//! the same fixed enumeration order used for transcript binding. Building
//! the set is a pure function of claim, elements and interaction claim, so
//! prover and verifier obtain bit-identical column offsets.

use vstd::prelude::*;
use crate::claims::{
    base_sizes_s, inter_sizes_s, quad_s, ret_inter_sizes_s, ret_sizes_s, CairoClaim,
    RC99_LOG_SIZE,
};
use crate::interaction::{CairoInteractionClaim, CairoInteractionElements};
use crate::qm31::QM31;

verus! {

/// The closed set of sub-component kinds.
#[derive(Clone, Copy, PartialEq, Eq, Structural, Debug)]
pub enum ComponentKind {
    Ret,
    RangeCheckBuiltin,
    MemoryAddrToId,
    MemoryIdToValue,
    RangeCheck99,
}

/// One bound component instance: its kind, trace shape, claimed lookup sum,
/// and the column offsets assigned to it in each commitment tree. Each
/// instance owns one base column, four interaction columns and one constant
/// column, all of its log-size.
#[derive(Clone, Copy, PartialEq, Eq, Structural, Debug)]
pub struct CairoComponent {
    pub kind: ComponentKind,
    pub log_size: u32,
    pub claimed_sum: QM31,
    pub base_offset: usize,
    pub interaction_offset: usize,
    pub constant_offset: usize,
}

/// The component at position `i` of the fixed enumeration.
pub open spec fn component_at_s(c: CairoClaim, ic: CairoInteractionClaim, i: int) -> CairoComponent {
    let n = c.ret@.len() as int;
    if i < n {
        CairoComponent {
            kind: ComponentKind::Ret,
            log_size: c.ret@[i].log_size,
            claimed_sum: ic.ret@[i].claimed_sum,
            base_offset: i as usize,
            interaction_offset: (4 * i) as usize,
            constant_offset: i as usize,
        }
    } else if i == n {
        CairoComponent {
            kind: ComponentKind::RangeCheckBuiltin,
            log_size: c.range_check_builtin.log_size,
            claimed_sum: ic.range_check_builtin.claimed_sum,
            base_offset: n as usize,
            interaction_offset: (4 * n) as usize,
            constant_offset: n as usize,
        }
    } else if i == n + 1 {
        CairoComponent {
            kind: ComponentKind::MemoryAddrToId,
            log_size: c.memory_addr_to_id.log_size,
            claimed_sum: ic.memory_addr_to_id.claimed_sum,
            base_offset: (n + 1) as usize,
            interaction_offset: (4 * n + 4) as usize,
            constant_offset: (n + 1) as usize,
        }
    } else if i == n + 2 {
        CairoComponent {
            kind: ComponentKind::MemoryIdToValue,
            log_size: c.memory_id_to_value.log_size,
            claimed_sum: ic.memory_id_to_value.claimed_sum,
            base_offset: (n + 2) as usize,
            interaction_offset: (4 * n + 8) as usize,
            constant_offset: (n + 2) as usize,
        }
    } else {
        CairoComponent {
            kind: ComponentKind::RangeCheck99,
            log_size: RC99_LOG_SIZE,
            claimed_sum: ic.range_check9_9.claimed_sum,
            base_offset: (n + 3) as usize,
            interaction_offset: (4 * n + 12) as usize,
            constant_offset: (n + 3) as usize,
        }
    }
}

/// The full component set, a pure function of claim and interaction claim.
pub open spec fn components_s(c: CairoClaim, ic: CairoInteractionClaim) -> Seq<CairoComponent> {
    Seq::new(c.ret@.len() + 4, |i: int| component_at_s(c, ic, i))
}

/// Every pair of distinct instances is assigned disjoint column ranges in
/// each tree: offsets advance by at least the instance's column counts.
pub proof fn lemma_component_ranges_disjoint(c: CairoClaim, ic: CairoInteractionClaim)
    requires
        c.ret@.len() <= 0x1000_0000,
    ensures
        forall|i: int, j: int|
            0 <= i < j < components_s(c, ic).len() ==> {
                &&& #[trigger] components_s(c, ic)[i].base_offset + 1
                    <= #[trigger] components_s(c, ic)[j].base_offset
                &&& components_s(c, ic)[i].interaction_offset + 4 <= components_s(
                    c,
                    ic,
                )[j].interaction_offset
                &&& components_s(c, ic)[i].constant_offset + 1 <= components_s(
                    c,
                    ic,
                )[j].constant_offset
            },
{
    assert forall|i: int, j: int| 0 <= i < j < components_s(c, ic).len() implies {
        &&& #[trigger] components_s(c, ic)[i].base_offset + 1 <= #[trigger] components_s(
            c,
            ic,
        )[j].base_offset
        &&& components_s(c, ic)[i].interaction_offset + 4 <= components_s(
            c,
            ic,
        )[j].interaction_offset
        &&& components_s(c, ic)[i].constant_offset + 1 <= components_s(c, ic)[j].constant_offset
    } by {
        assert(components_s(c, ic)[i] == component_at_s(c, ic, i));
        assert(components_s(c, ic)[j] == component_at_s(c, ic, j));
    }
}

/// Base-tree column sizes declared by a component list: one column each.
pub open spec fn comps_base_sizes_s(cs: Seq<CairoComponent>) -> Seq<u32>
    decreases cs.len(),
{
    if cs.len() == 0 {
        Seq::<u32>::empty()
    } else {
        comps_base_sizes_s(cs.drop_last()) + seq![cs.last().log_size]
    }
}

/// Interaction-tree column sizes declared by a component list: four each.
pub open spec fn comps_inter_sizes_s(cs: Seq<CairoComponent>) -> Seq<u32>
    decreases cs.len(),
{
    if cs.len() == 0 {
        Seq::<u32>::empty()
    } else {
        comps_inter_sizes_s(cs.drop_last()) + quad_s(cs.last().log_size)
    }
}

proof fn lemma_ret_comp_sizes(c: CairoClaim, ic: CairoInteractionClaim, k: int)
    requires
        0 <= k <= c.ret@.len(),
    ensures
        comps_base_sizes_s(components_s(c, ic).take(k)) == ret_sizes_s(c.ret@.take(k)),
        comps_inter_sizes_s(components_s(c, ic).take(k)) == ret_inter_sizes_s(c.ret@.take(k)),
    decreases k,
{
    if k == 0 {
        assert(components_s(c, ic).take(0) =~= Seq::<CairoComponent>::empty());
        assert(c.ret@.take(0) =~= Seq::<crate::claims::RetClaim>::empty());
    } else {
        lemma_ret_comp_sizes(c, ic, k - 1);
        assert(components_s(c, ic).take(k).drop_last() =~= components_s(c, ic).take(k - 1));
        assert(c.ret@.take(k).drop_last() =~= c.ret@.take(k - 1));
        assert(components_s(c, ic).take(k).last() == component_at_s(c, ic, k - 1));
    }
}

/// The component set declares exactly the column sizes that the claim
/// reports, tree by tree: the two enumerations agree.
pub proof fn lemma_sizes_consistent(c: CairoClaim, ic: CairoInteractionClaim)
    ensures
        comps_base_sizes_s(components_s(c, ic)) == base_sizes_s(c),
        comps_inter_sizes_s(components_s(c, ic)) == inter_sizes_s(c),
{
    let n = c.ret@.len() as int;
    let cs = components_s(c, ic);
    lemma_ret_comp_sizes(c, ic, n);
    assert(c.ret@.take(n) =~= c.ret@);
    let s0 = cs.take(n);
    let s1 = cs.take(n + 1);
    let s2 = cs.take(n + 2);
    let s3 = cs.take(n + 3);
    assert(s1.drop_last() =~= s0);
    assert(s2.drop_last() =~= s1);
    assert(s3.drop_last() =~= s2);
    assert(cs.drop_last() =~= s3);
    assert(s1.last() == component_at_s(c, ic, n));
    assert(s2.last() == component_at_s(c, ic, n + 1));
    assert(s3.last() == component_at_s(c, ic, n + 2));
    assert(cs.last() == component_at_s(c, ic, n + 3));
    assert(comps_base_sizes_s(s1) == comps_base_sizes_s(s0) + seq![
        c.range_check_builtin.log_size,
    ]);
    assert(comps_base_sizes_s(s2) == comps_base_sizes_s(s1) + seq![
        c.memory_addr_to_id.log_size,
    ]);
    assert(comps_base_sizes_s(s3) == comps_base_sizes_s(s2) + seq![
        c.memory_id_to_value.log_size,
    ]);
    assert(comps_base_sizes_s(cs) == comps_base_sizes_s(s3) + seq![RC99_LOG_SIZE]);
    assert(comps_inter_sizes_s(s1) == comps_inter_sizes_s(s0) + quad_s(
        c.range_check_builtin.log_size,
    ));
    assert(comps_inter_sizes_s(s2) == comps_inter_sizes_s(s1) + quad_s(
        c.memory_addr_to_id.log_size,
    ));
    assert(comps_inter_sizes_s(s3) == comps_inter_sizes_s(s2) + quad_s(
        c.memory_id_to_value.log_size,
    ));
    assert(comps_inter_sizes_s(cs) == comps_inter_sizes_s(s3) + quad_s(RC99_LOG_SIZE));
    assert(comps_base_sizes_s(cs) =~= base_sizes_s(c));
    assert(comps_inter_sizes_s(cs) =~= inter_sizes_s(c));
}

/// The bound component instances of one proof, in the fixed enumeration
/// order, with their allocated trace locations.
pub struct CairoComponents {
    pub ret: Vec<CairoComponent>,
    pub range_check_builtin: CairoComponent,
    pub memory_addr_to_id: CairoComponent,
    pub memory_id_to_value: CairoComponent,
    pub range_check9_9: CairoComponent,
}

pub open spec fn components_view(s: CairoComponents) -> Seq<CairoComponent> {
    s.ret@ + seq![
        s.range_check_builtin,
        s.memory_addr_to_id,
        s.memory_id_to_value,
        s.range_check9_9,
    ]
}

impl CairoComponents {
    /// Bind claim, relation elements and interaction claim into component
    /// instances, allocating disjoint column ranges in enumeration order.
    /// The relation elements do not influence the layout; they are bound at
    /// constraint-evaluation time by the external evaluators.
    #[allow(unused_variables)]
    pub fn new(
        cairo_claim: &CairoClaim,
        interaction_elements: &CairoInteractionElements,
        interaction_claim: &CairoInteractionClaim,
    ) -> (r: CairoComponents)
        requires
            cairo_claim.ret@.len() == interaction_claim.ret@.len(),
            cairo_claim.ret@.len() <= 0x1000_0000,
        ensures
            components_view(r) == components_s(*cairo_claim, *interaction_claim),
    {
        let n = cairo_claim.ret.len();
        let mut ret: Vec<CairoComponent> = Vec::new();
        let mut i: usize = 0;
        while i < n
            invariant
                i <= n,
                n == cairo_claim.ret@.len(),
                n == interaction_claim.ret@.len(),
                n <= 0x1000_0000,
                ret@.len() == i,
                forall|k: int|
                    0 <= k < i ==> #[trigger] ret@[k] == component_at_s(
                        *cairo_claim,
                        *interaction_claim,
                        k,
                    ),
            decreases n - i,
        {
            ret.push(
                CairoComponent {
                    kind: ComponentKind::Ret,
                    log_size: cairo_claim.ret[i].log_size,
                    claimed_sum: interaction_claim.ret[i].claimed_sum,
                    base_offset: i,
                    interaction_offset: 4 * i,
                    constant_offset: i,
                },
            );
            i = i + 1;
        }
        let range_check_builtin = CairoComponent {
            kind: ComponentKind::RangeCheckBuiltin,
            log_size: cairo_claim.range_check_builtin.log_size,
            claimed_sum: interaction_claim.range_check_builtin.claimed_sum,
            base_offset: n,
            interaction_offset: 4 * n,
            constant_offset: n,
        };
        let memory_addr_to_id = CairoComponent {
            kind: ComponentKind::MemoryAddrToId,
            log_size: cairo_claim.memory_addr_to_id.log_size,
            claimed_sum: interaction_claim.memory_addr_to_id.claimed_sum,
            base_offset: n + 1,
            interaction_offset: 4 * n + 4,
            constant_offset: n + 1,
        };
        let memory_id_to_value = CairoComponent {
            kind: ComponentKind::MemoryIdToValue,
            log_size: cairo_claim.memory_id_to_value.log_size,
            claimed_sum: interaction_claim.memory_id_to_value.claimed_sum,
            base_offset: n + 2,
            interaction_offset: 4 * n + 8,
            constant_offset: n + 2,
        };
        let range_check9_9 = CairoComponent {
            kind: ComponentKind::RangeCheck99,
            log_size: RC99_LOG_SIZE,
            claimed_sum: interaction_claim.range_check9_9.claimed_sum,
            base_offset: n + 3,
            interaction_offset: 4 * n + 12,
            constant_offset: n + 3,
        };
        let r = CairoComponents {
            ret,
            range_check_builtin,
            memory_addr_to_id,
            memory_id_to_value,
            range_check9_9,
        };
        proof {
            assert(components_view(r) =~= components_s(*cairo_claim, *interaction_claim));
        }
        r
    }

    /// The provable view: the instances handed to the proving engine.
    pub fn provers(&self) -> (r: Vec<CairoComponent>)
        ensures
            r@ == components_view(*self),
    {
        self.instances()
    }

    /// The verifiable view: the instances handed to the verifying engine.
    pub fn components(&self) -> (r: Vec<CairoComponent>)
        ensures
            r@ == components_view(*self),
    {
        self.instances()
    }

    fn instances(&self) -> (r: Vec<CairoComponent>)
        ensures
            r@ == components_view(*self),
    {
        let mut r: Vec<CairoComponent> = Vec::new();
        let mut i: usize = 0;
        while i < self.ret.len()
            invariant
                i <= self.ret.len(),
                r@ == self.ret@.take(i as int),
            decreases self.ret.len() - i,
        {
            r.push(self.ret[i]);
            proof {
                assert(self.ret@.take(i as int + 1) =~= self.ret@.take(i as int).push(
                    self.ret@[i as int],
                ));
            }
            i = i + 1;
        }
        proof {
            assert(self.ret@.take(self.ret.len() as int) =~= self.ret@);
        }
        r.push(self.range_check_builtin);
        r.push(self.memory_addr_to_id);
        r.push(self.memory_id_to_value);
        r.push(self.range_check9_9);
        proof {
            assert(r@ =~= components_view(*self));
        }
        r
    }
}

} // verus!
