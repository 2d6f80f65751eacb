//! The Fiat-Shamir transcript. Its state is the exact sequence of absorbed
//! words; challenges are drawn by deterministic expansion of that state and
//! are fed back into it. Every operation is a pure function of the absorbed
//! history, which is what makes the prover and verifier transcripts
//! reproducible and order-sensitive.

use vstd::prelude::*;
use vstd::arithmetic::div_mod::lemma_mod_bound;
use vstd::arithmetic::mul::lemma_mul_upper_bound;
use crate::fields::{m31_wf, P};
use crate::qm31::{qm31_wf, qv, Q4, QM31};

verus! {

/// Initial digest state.
pub const DIGEST_SEED: u32 = 0x6a09_e667;

/// Odd multiplier folding one absorbed word into the digest.
pub const DIGEST_MULT: u32 = 0x0100_0193;

pub open spec fn digest_step_s(d: int, w: int) -> int {
    (d * (DIGEST_MULT as int) + w + 1) % (P as int)
}

/// The digest of an absorbed history: a left fold of the mixing step.
pub open spec fn digest_s(s: Seq<u32>) -> int
    decreases s.len(),
{
    if s.len() == 0 {
        DIGEST_SEED as int
    } else {
        digest_step_s(digest_s(s.drop_last()), s.last() as int)
    }
}

pub proof fn lemma_digest_bound(s: Seq<u32>)
    ensures
        m31_wf(digest_s(s)),
{
    if s.len() == 0 {
    } else {
        lemma_mod_bound(
            digest_s(s.drop_last()) * (DIGEST_MULT as int) + s.last() as int + 1,
            P as int,
        );
    }
}

/// The history after `n` successive base-field draws: each draw appends the
/// current digest to the history.
pub open spec fn draw_words_s(s: Seq<u32>, n: nat) -> Seq<u32>
    decreases n,
{
    if n == 0 {
        s
    } else {
        let p = draw_words_s(s, (n - 1) as nat);
        p.push(digest_s(p) as u32)
    }
}

/// The value of the `i`-th base-field element drawn from history `s`.
pub open spec fn drawn_s(s: Seq<u32>, i: nat) -> int {
    digest_s(draw_words_s(s, i))
}

/// Four consecutive draws starting at index `k`, as an extension-field value.
pub open spec fn drawn_q4_s(s: Seq<u32>, k: nat) -> Q4 {
    (drawn_s(s, k), drawn_s(s, (k + 1) as nat), drawn_s(s, (k + 2) as nat), drawn_s(
        s,
        (k + 3) as nat,
    ))
}

/// Drawing `m + n` elements is drawing `m`, then `n` more.
pub proof fn lemma_draw_words_add(s: Seq<u32>, m: nat, n: nat)
    ensures
        draw_words_s(s, m + n) == draw_words_s(draw_words_s(s, m), n),
    decreases n,
{
    if n > 0 {
        lemma_draw_words_add(s, m, (n - 1) as nat);
        assert(m + n - 1 == m + ((n - 1) as nat));
    }
}

/// The words a mixed extension-field value contributes to the history.
pub open spec fn qm31_words_s(x: QM31) -> Seq<u32> {
    seq![x.a, x.b, x.c, x.d]
}

/// Extending two transcripts that agree so far with different messages
/// leaves them in different states.
pub proof fn lemma_transcript_order_sensitive(s: Seq<u32>, a: Seq<u32>, b: Seq<u32>)
    requires
        a != b,
    ensures
        s + a != s + b,
{
    if a.len() != b.len() {
        assert((s + a).len() != (s + b).len());
    } else {
        assert(exists|i: int| 0 <= i < a.len() && a[i] != b[i]) by {
            if forall|i: int| 0 <= i < a.len() ==> a[i] == #[trigger] b[i] {
                assert(a =~= b);
            }
        }
        let i = choose|i: int| 0 <= i < a.len() && a[i] != b[i];
        assert((s + a)[s.len() + i] != (s + b)[s.len() + i]);
    }
}

/// A Fiat-Shamir transcript; the state is the absorbed history itself.
pub struct Channel {
    words: Vec<u32>,
}

impl View for Channel {
    type V = Seq<u32>;

    closed spec fn view(&self) -> Seq<u32> {
        self.words@
    }
}

impl Channel {
    pub fn new() -> (r: Channel)
        ensures
            r@ =~= Seq::<u32>::empty(),
    {
        Channel { words: Vec::new() }
    }

    pub fn mix_u32(&mut self, w: u32)
        ensures
            final(self)@ == old(self)@.push(w),
    {
        self.words.push(w);
    }

    pub fn mix_qm31(&mut self, x: &QM31)
        ensures
            final(self)@ == old(self)@ + qm31_words_s(*x),
    {
        self.words.push(x.a);
        self.words.push(x.b);
        self.words.push(x.c);
        self.words.push(x.d);
        proof {
            assert(final(self)@ =~= old(self)@ + qm31_words_s(*x));
        }
    }

    /// The current digest, a pure function of the absorbed history.
    pub fn digest(&self) -> (r: u32)
        ensures
            r as int == digest_s(self@),
            m31_wf(r as int),
    {
        let mut acc: u32 = DIGEST_SEED;
        let mut i: usize = 0;
        proof {
            assert(self@.take(0) =~= Seq::<u32>::empty());
        }
        while i < self.words.len()
            invariant
                i <= self.words.len(),
                acc as int == digest_s(self@.take(i as int)),
                m31_wf(acc as int),
            decreases self.words.len() - i,
        {
            let w = self.words[i];
            proof {
                lemma_mul_upper_bound(acc as int, P as int - 1, DIGEST_MULT as int, DIGEST_MULT as int);
                lemma_mod_bound(acc as int * (DIGEST_MULT as int) + w as int + 1, P as int);
                assert(self@.take(i as int + 1).drop_last() =~= self@.take(i as int));
                assert(self@.take(i as int + 1).last() == self@[i as int]);
            }
            acc = ((acc as u64 * DIGEST_MULT as u64 + w as u64 + 1) % (P as u64)) as u32;
            i = i + 1;
        }
        proof {
            assert(self@.take(self.words.len() as int) =~= self@);
        }
        acc
    }

    /// Draw one base-field element and feed it back into the transcript.
    pub fn draw_m31(&mut self) -> (r: u32)
        ensures
            r as int == drawn_s(old(self)@, 0),
            final(self)@ == draw_words_s(old(self)@, 1),
            m31_wf(r as int),
    {
        let d = self.digest();
        proof {
            assert(draw_words_s(old(self)@, 0) == old(self)@);
            assert(draw_words_s(old(self)@, 1) == old(self)@.push(digest_s(old(self)@) as u32));
        }
        self.words.push(d);
        d
    }

    /// Draw one extension-field element: four consecutive base-field draws.
    pub fn draw_qm31(&mut self) -> (r: QM31)
        ensures
            qv(r) == drawn_q4_s(old(self)@, 0),
            final(self)@ == draw_words_s(old(self)@, 4),
            qm31_wf(r),
    {
        let ghost s0 = self@;
        let a = self.draw_m31();
        proof {
            lemma_draw_words_add(s0, 1, 1);
        }
        let b = self.draw_m31();
        proof {
            lemma_draw_words_add(s0, 2, 1);
        }
        let c = self.draw_m31();
        proof {
            lemma_draw_words_add(s0, 3, 1);
        }
        let d = self.draw_m31();
        QM31 { a, b, c, d }
    }
}

} // verus!
