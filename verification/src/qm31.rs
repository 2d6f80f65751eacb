//! The degree-four extension of the base field, built as a tower of two
//! quadratic extensions: `CM31 = M31[i]/(i^2 + 1)` and
//! `QM31 = CM31[u]/(u^2 - (2 + i))`. Claimed lookup sums and drawn relation
//! elements are values of this field.

use vstd::prelude::*;
use crate::fields::{
    m31_add, m31_add_s, m31_inv, m31_inv_s, m31_mul, m31_mul_s, m31_neg, m31_neg_s, m31_sub,
    m31_sub_s, m31_wf, lemma_pow_s_bound, P,
};

verus! {

/// A ghost extension-field value: four base-field coordinates.
pub type Q4 = (int, int, int, int);

/// A ghost value of the intermediate quadratic extension.
pub type C2 = (int, int);

pub open spec fn qwf(x: Q4) -> bool {
    m31_wf(x.0) && m31_wf(x.1) && m31_wf(x.2) && m31_wf(x.3)
}

pub open spec fn qzero_s() -> Q4 {
    (0int, 0int, 0int, 0int)
}

pub open spec fn qone_s() -> Q4 {
    (1int, 0int, 0int, 0int)
}

pub open spec fn qadd_s(x: Q4, y: Q4) -> Q4 {
    (m31_add_s(x.0, y.0), m31_add_s(x.1, y.1), m31_add_s(x.2, y.2), m31_add_s(x.3, y.3))
}

pub open spec fn qneg_s(x: Q4) -> Q4 {
    (m31_neg_s(x.0), m31_neg_s(x.1), m31_neg_s(x.2), m31_neg_s(x.3))
}

pub open spec fn qsub_s(x: Q4, y: Q4) -> Q4 {
    qadd_s(x, qneg_s(y))
}

pub open spec fn cmul_s(x: C2, y: C2) -> C2 {
    (m31_sub_s(m31_mul_s(x.0, y.0), m31_mul_s(x.1, y.1)),
    m31_add_s(m31_mul_s(x.0, y.1), m31_mul_s(x.1, y.0)))
}

pub open spec fn cadd_s(x: C2, y: C2) -> C2 {
    (m31_add_s(x.0, y.0), m31_add_s(x.1, y.1))
}

pub open spec fn csub_s(x: C2, y: C2) -> C2 {
    (m31_sub_s(x.0, y.0), m31_sub_s(x.1, y.1))
}

/// Multiplication by the tower constant `2 + i`.
pub open spec fn rmul_s(x: C2) -> C2 {
    cmul_s((2int, 1int), x)
}

pub open spec fn q_re(x: Q4) -> C2 {
    (x.0, x.1)
}

pub open spec fn q_im(x: Q4) -> C2 {
    (x.2, x.3)
}

pub open spec fn qmul_s(x: Q4, y: Q4) -> Q4 {
    let ac = cmul_s(q_re(x), q_re(y));
    let bd = cmul_s(q_im(x), q_im(y));
    let re = cadd_s(ac, rmul_s(bd));
    let im = cadd_s(cmul_s(q_re(x), q_im(y)), cmul_s(q_im(x), q_re(y)));
    (re.0, re.1, im.0, im.1)
}

/// Inverse of the intermediate extension: conjugate over norm.
pub open spec fn cinv_s(x: C2) -> C2 {
    let n = m31_add_s(m31_mul_s(x.0, x.0), m31_mul_s(x.1, x.1));
    let ni = m31_inv_s(n);
    (m31_mul_s(x.0, ni), m31_mul_s(m31_neg_s(x.1), ni))
}

/// The inverse function of the extension field: `(A + Bu)^-1 =
/// (A - Bu) * (A^2 - (2+i) B^2)^-1`, with zero sent to zero.
pub open spec fn qinv_s(x: Q4) -> Q4 {
    let n = csub_s(cmul_s(q_re(x), q_re(x)), rmul_s(cmul_s(q_im(x), q_im(x))));
    let ni = cinv_s(n);
    let ra = cmul_s(q_re(x), ni);
    let rb = cmul_s((m31_neg_s(x.2), m31_neg_s(x.3)), ni);
    (ra.0, ra.1, rb.0, rb.1)
}

/// An extension-field element, four reduced base-field coordinates.
#[derive(Clone, Copy, PartialEq, Eq, Structural, Debug)]
pub struct QM31 {
    pub a: u32,
    pub b: u32,
    pub c: u32,
    pub d: u32,
}

pub open spec fn qv(x: QM31) -> Q4 {
    (x.a as int, x.b as int, x.c as int, x.d as int)
}

pub open spec fn qm31_wf(x: QM31) -> bool {
    qwf(qv(x))
}

impl QM31 {
    pub fn zero() -> (r: QM31)
        ensures
            qv(r) == qzero_s(),
    {
        QM31 { a: 0, b: 0, c: 0, d: 0 }
    }

    pub fn one() -> (r: QM31)
        ensures
            qv(r) == qone_s(),
    {
        QM31 { a: 1, b: 0, c: 0, d: 0 }
    }

    /// Embedding of a base-field value.
    pub fn from_m31(t: u32) -> (r: QM31)
        requires
            m31_wf(t as int),
        ensures
            qv(r) == (t as int, 0int, 0int, 0int),
    {
        QM31 { a: t, b: 0, c: 0, d: 0 }
    }

    pub fn add(&self, o: &QM31) -> (r: QM31)
        requires
            qm31_wf(*self),
            qm31_wf(*o),
        ensures
            qv(r) == qadd_s(qv(*self), qv(*o)),
            qm31_wf(r),
    {
        QM31 {
            a: m31_add(self.a, o.a),
            b: m31_add(self.b, o.b),
            c: m31_add(self.c, o.c),
            d: m31_add(self.d, o.d),
        }
    }

    pub fn neg(&self) -> (r: QM31)
        requires
            qm31_wf(*self),
        ensures
            qv(r) == qneg_s(qv(*self)),
            qm31_wf(r),
    {
        QM31 {
            a: m31_neg(self.a),
            b: m31_neg(self.b),
            c: m31_neg(self.c),
            d: m31_neg(self.d),
        }
    }

    pub fn sub(&self, o: &QM31) -> (r: QM31)
        requires
            qm31_wf(*self),
            qm31_wf(*o),
        ensures
            qv(r) == qsub_s(qv(*self), qv(*o)),
            qm31_wf(r),
    {
        self.add(&o.neg())
    }

    pub fn mul(&self, o: &QM31) -> (r: QM31)
        requires
            qm31_wf(*self),
            qm31_wf(*o),
        ensures
            qv(r) == qmul_s(qv(*self), qv(*o)),
            qm31_wf(r),
    {
        let ac = cm31_mul(self.a, self.b, o.a, o.b);
        let bd = cm31_mul(self.c, self.d, o.c, o.d);
        let rbd = cm31_mul(2, 1, bd.0, bd.1);
        let ad = cm31_mul(self.a, self.b, o.c, o.d);
        let bc = cm31_mul(self.c, self.d, o.a, o.b);
        QM31 {
            a: m31_add(ac.0, rbd.0),
            b: m31_add(ac.1, rbd.1),
            c: m31_add(ad.0, bc.0),
            d: m31_add(ad.1, bc.1),
        }
    }

    /// The extension-field inverse function; zero is sent to zero.
    pub fn inverse(&self) -> (r: QM31)
        requires
            qm31_wf(*self),
        ensures
            qv(r) == qinv_s(qv(*self)),
            qm31_wf(r),
    {
        let aa = cm31_mul(self.a, self.b, self.a, self.b);
        let bb = cm31_mul(self.c, self.d, self.c, self.d);
        let rbb = cm31_mul(2, 1, bb.0, bb.1);
        let n0 = m31_sub(aa.0, rbb.0);
        let n1 = m31_sub(aa.1, rbb.1);
        let norm = m31_add(m31_mul(n0, n0), m31_mul(n1, n1));
        let ninv = m31_inv(norm);
        proof {
            lemma_pow_s_bound(norm as int, (P - 2) as nat);
        }
        let ni0 = m31_mul(n0, ninv);
        let ni1 = m31_mul(m31_neg(n1), ninv);
        let ra = cm31_mul(self.a, self.b, ni0, ni1);
        let rb = cm31_mul(m31_neg(self.c), m31_neg(self.d), ni0, ni1);
        QM31 { a: ra.0, b: ra.1, c: rb.0, d: rb.1 }
    }
}

/// Multiplication in the intermediate extension, on raw coordinates.
fn cm31_mul(x0: u32, x1: u32, y0: u32, y1: u32) -> (r: (u32, u32))
    requires
        m31_wf(x0 as int),
        m31_wf(x1 as int),
        m31_wf(y0 as int),
        m31_wf(y1 as int),
    ensures
        (r.0 as int, r.1 as int) == cmul_s((x0 as int, x1 as int), (y0 as int, y1 as int)),
        m31_wf(r.0 as int),
        m31_wf(r.1 as int),
{
    let re = m31_sub(m31_mul(x0, y0), m31_mul(x1, y1));
    let im = m31_add(m31_mul(x0, y1), m31_mul(x1, y0));
    (re, im)
}

/// Sum of a sequence of extension-field values, folded from the left.
pub open spec fn qsum_s(s: Seq<Q4>) -> Q4
    decreases s.len(),
{
    if s.len() == 0 {
        qzero_s()
    } else {
        qadd_s(qsum_s(s.drop_last()), s.last())
    }
}

pub open spec fn qseq_wf(s: Seq<Q4>) -> bool {
    forall|i: int| 0 <= i < s.len() ==> qwf(#[trigger] s[i])
}

pub proof fn lemma_qsum_wf(s: Seq<Q4>)
    requires
        qseq_wf(s),
    ensures
        qwf(qsum_s(s)),
    decreases s.len(),
{
    if s.len() > 0 {
        lemma_qsum_wf(s.drop_last());
    }
}

/// Addition in the extension field is associative on reduced values.
pub proof fn lemma_qadd_assoc(x: Q4, y: Q4, z: Q4)
    requires
        qwf(x),
        qwf(y),
        qwf(z),
    ensures
        qadd_s(qadd_s(x, y), z) == qadd_s(x, qadd_s(y, z)),
{
}

pub proof fn lemma_qadd_comm(x: Q4, y: Q4)
    ensures
        qadd_s(x, y) == qadd_s(y, x),
{
}

pub proof fn lemma_qadd_zero(x: Q4)
    requires
        qwf(x),
    ensures
        qadd_s(x, qzero_s()) == x,
        qadd_s(qzero_s(), x) == x,
{
}

/// Every reduced value cancels against its additive inverse.
pub proof fn lemma_qadd_neg(x: Q4)
    requires
        qwf(x),
    ensures
        qadd_s(x, qneg_s(x)) == qzero_s(),
{
}

/// A sum over a concatenation splits into the two partial sums.
pub proof fn lemma_qsum_concat(a: Seq<Q4>, b: Seq<Q4>)
    requires
        qseq_wf(a),
        qseq_wf(b),
    ensures
        qsum_s(a + b) == qadd_s(qsum_s(a), qsum_s(b)),
    decreases b.len(),
{
    lemma_qsum_wf(a);
    if b.len() == 0 {
        assert(a + b =~= a);
        lemma_qadd_zero(qsum_s(a));
    } else {
        assert(qseq_wf(b.drop_last()));
        lemma_qsum_concat(a, b.drop_last());
        assert((a + b).drop_last() =~= a + b.drop_last());
        assert((a + b).last() == b.last());
        lemma_qsum_wf(b.drop_last());
        lemma_qadd_assoc(qsum_s(a), qsum_s(b.drop_last()), b.last());
    }
}

} // verus!
