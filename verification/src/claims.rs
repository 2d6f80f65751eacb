//! Claim aggregation: the per-run public record of every sub-component's
//! trace shape plus the public inputs, its fixed transcript-absorption order,
//! and the per-tree column-size layout. Absorption and size reporting must
//! enumerate the sub-components in one identical order; the layout here is
//! one base and one constant column per sub-component instance and four
//! interaction columns, all of the instance's log-size.

use vstd::prelude::*;
use crate::channel::Channel;

verus! {

/// A VM state snapshot: the three Cairo registers.
#[derive(Clone, Copy, PartialEq, Eq, Structural, Debug)]
pub struct VmState {
    pub pc: u32,
    pub ap: u32,
    pub fp: u32,
}

/// Claim of one return-opcode instance.
#[derive(Clone, Copy, PartialEq, Eq, Structural, Debug)]
pub struct RetClaim {
    pub log_size: u32,
}

/// Claim of the range-check builtin segment.
#[derive(Clone, Copy, PartialEq, Eq, Structural, Debug)]
pub struct RangeCheckBuiltinClaim {
    pub log_size: u32,
}

/// Claim of the memory address-to-id table.
#[derive(Clone, Copy, PartialEq, Eq, Structural, Debug)]
pub struct MemoryAddrToIdClaim {
    pub log_size: u32,
}

/// Claim of the memory id-to-value table.
#[derive(Clone, Copy, PartialEq, Eq, Structural, Debug)]
pub struct MemoryIdToValueClaim {
    pub log_size: u32,
}

/// Claim of the 9-bit range-check table, whose size is fixed.
#[derive(Clone, Copy, PartialEq, Eq, Structural, Debug)]
pub struct RangeCheck99Claim {}

/// Log-size of the fixed 9-bit range-check table: two 9-bit limbs.
pub const RC99_LOG_SIZE: u32 = 18;

/// The aggregated claim: public inputs plus one claim per wired
/// sub-component instance, in the fixed enumeration order.
#[derive(Debug)]
pub struct CairoClaim {
    pub public_memory: Vec<(u32, [u32; 8])>,
    pub initial_state: VmState,
    pub final_state: VmState,
    pub ret: Vec<RetClaim>,
    pub range_check_builtin: RangeCheckBuiltinClaim,
    pub memory_addr_to_id: MemoryAddrToIdClaim,
    pub memory_id_to_value: MemoryIdToValueClaim,
    pub range_check9_9: RangeCheck99Claim,
}

/// Words the return-opcode claims contribute to the transcript, in order.
pub open spec fn ret_words_s(rs: Seq<RetClaim>) -> Seq<u32>
    decreases rs.len(),
{
    if rs.len() == 0 {
        Seq::<u32>::empty()
    } else {
        ret_words_s(rs.drop_last()) + seq![rs.last().log_size]
    }
}

/// The full transcript encoding of a claim. Public inputs are part of the
/// claim but are not absorbed by this layer, and the fixed-size 9-bit
/// range-check claim carries no data to absorb.
pub open spec fn claim_words_s(c: CairoClaim) -> Seq<u32> {
    ret_words_s(c.ret@) + seq![
        c.range_check_builtin.log_size,
        c.memory_addr_to_id.log_size,
        c.memory_id_to_value.log_size,
    ]
}

/// Base-tree (and constant-tree) column sizes of the return-opcode claims.
pub open spec fn ret_sizes_s(rs: Seq<RetClaim>) -> Seq<u32>
    decreases rs.len(),
{
    if rs.len() == 0 {
        Seq::<u32>::empty()
    } else {
        ret_sizes_s(rs.drop_last()) + seq![rs.last().log_size]
    }
}

/// Interaction-tree column sizes of the return-opcode claims: four columns
/// per instance.
pub open spec fn ret_inter_sizes_s(rs: Seq<RetClaim>) -> Seq<u32>
    decreases rs.len(),
{
    if rs.len() == 0 {
        Seq::<u32>::empty()
    } else {
        ret_inter_sizes_s(rs.drop_last()) + quad_s(rs.last().log_size)
    }
}

pub open spec fn quad_s(l: u32) -> Seq<u32> {
    seq![l, l, l, l]
}

/// Base-tree column sizes, concatenated in the fixed enumeration order.
pub open spec fn base_sizes_s(c: CairoClaim) -> Seq<u32> {
    ret_sizes_s(c.ret@) + seq![
        c.range_check_builtin.log_size,
        c.memory_addr_to_id.log_size,
        c.memory_id_to_value.log_size,
        RC99_LOG_SIZE,
    ]
}

/// Interaction-tree column sizes, in the same order.
pub open spec fn inter_sizes_s(c: CairoClaim) -> Seq<u32> {
    ret_inter_sizes_s(c.ret@) + quad_s(c.range_check_builtin.log_size) + quad_s(
        c.memory_addr_to_id.log_size,
    ) + quad_s(c.memory_id_to_value.log_size) + quad_s(RC99_LOG_SIZE)
}

/// Ordered column bit-sizes, one list per commitment tree.
pub struct LogSizes {
    pub base: Vec<u32>,
    pub interaction: Vec<u32>,
    pub constant: Vec<u32>,
}

impl CairoClaim {
    /// Absorb every sub-component claim into the transcript, in the fixed
    /// enumeration order.
    pub fn mix_into(&self, channel: &mut Channel)
        ensures
            final(channel)@ == old(channel)@ + claim_words_s(*self),
    {
        let ghost s0 = channel@;
        let mut i: usize = 0;
        proof {
            assert(self.ret@.take(0) =~= Seq::<RetClaim>::empty());
            assert(s0 + ret_words_s(self.ret@.take(0)) =~= s0);
        }
        while i < self.ret.len()
            invariant
                i <= self.ret.len(),
                channel@ == s0 + ret_words_s(self.ret@.take(i as int)),
            decreases self.ret.len() - i,
        {
            channel.mix_u32(self.ret[i].log_size);
            proof {
                assert(self.ret@.take(i as int + 1).drop_last() =~= self.ret@.take(i as int));
                assert(self.ret@.take(i as int + 1).last() == self.ret@[i as int]);
                assert(channel@ =~= s0 + ret_words_s(self.ret@.take(i as int + 1)));
            }
            i = i + 1;
        }
        channel.mix_u32(self.range_check_builtin.log_size);
        channel.mix_u32(self.memory_addr_to_id.log_size);
        channel.mix_u32(self.memory_id_to_value.log_size);
        proof {
            assert(self.ret@.take(self.ret.len() as int) =~= self.ret@);
            assert(channel@ =~= s0 + claim_words_s(*self));
        }
    }

    /// The ordered column sizes of all three commitment trees, concatenated
    /// in the same fixed enumeration order as `mix_into`. The constant tree
    /// holds one selector column per instance, of the instance's log-size.
    pub fn log_sizes(&self) -> (r: LogSizes)
        ensures
            r.base@ == base_sizes_s(*self),
            r.interaction@ == inter_sizes_s(*self),
            r.constant@ == base_sizes_s(*self),
    {
        let base = self.sizes_vec();
        let constant = self.sizes_vec();
        let mut interaction: Vec<u32> = Vec::new();
        let mut i: usize = 0;
        proof {
            assert(self.ret@.take(0) =~= Seq::<RetClaim>::empty());
            assert(interaction@ =~= ret_inter_sizes_s(self.ret@.take(0)));
        }
        while i < self.ret.len()
            invariant
                i <= self.ret.len(),
                interaction@ == ret_inter_sizes_s(self.ret@.take(i as int)),
            decreases self.ret.len() - i,
        {
            let l = self.ret[i].log_size;
            interaction.push(l);
            interaction.push(l);
            interaction.push(l);
            interaction.push(l);
            proof {
                assert(self.ret@.take(i as int + 1).drop_last() =~= self.ret@.take(i as int));
                assert(self.ret@.take(i as int + 1).last() == self.ret@[i as int]);
                assert(interaction@ =~= ret_inter_sizes_s(self.ret@.take(i as int + 1)));
            }
            i = i + 1;
        }
        push_quad(&mut interaction, self.range_check_builtin.log_size);
        push_quad(&mut interaction, self.memory_addr_to_id.log_size);
        push_quad(&mut interaction, self.memory_id_to_value.log_size);
        push_quad(&mut interaction, RC99_LOG_SIZE);
        proof {
            assert(self.ret@.take(self.ret.len() as int) =~= self.ret@);
            assert(interaction@ =~= inter_sizes_s(*self));
        }
        LogSizes { base, interaction, constant }
    }

    /// One size per sub-component instance, in enumeration order.
    fn sizes_vec(&self) -> (r: Vec<u32>)
        ensures
            r@ == base_sizes_s(*self),
    {
        let mut r: Vec<u32> = Vec::new();
        let mut i: usize = 0;
        proof {
            assert(self.ret@.take(0) =~= Seq::<RetClaim>::empty());
            assert(r@ =~= ret_sizes_s(self.ret@.take(0)));
        }
        while i < self.ret.len()
            invariant
                i <= self.ret.len(),
                r@ == ret_sizes_s(self.ret@.take(i as int)),
            decreases self.ret.len() - i,
        {
            r.push(self.ret[i].log_size);
            proof {
                assert(self.ret@.take(i as int + 1).drop_last() =~= self.ret@.take(i as int));
                assert(self.ret@.take(i as int + 1).last() == self.ret@[i as int]);
                assert(r@ =~= ret_sizes_s(self.ret@.take(i as int + 1)));
            }
            i = i + 1;
        }
        r.push(self.range_check_builtin.log_size);
        r.push(self.memory_addr_to_id.log_size);
        r.push(self.memory_id_to_value.log_size);
        r.push(RC99_LOG_SIZE);
        proof {
            assert(self.ret@.take(self.ret.len() as int) =~= self.ret@);
            assert(r@ =~= base_sizes_s(*self));
        }
        r
    }
}

fn push_quad(v: &mut Vec<u32>, l: u32)
    ensures
        final(v)@ == old(v)@ + quad_s(l),
{
    v.push(l);
    v.push(l);
    v.push(l);
    v.push(l);
    proof {
        assert(final(v)@ =~= old(v)@ + quad_s(l));
    }
}

} // verus!
