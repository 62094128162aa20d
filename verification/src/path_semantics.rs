//! Path semantics.
//!
//! The path semantical order is a structural relation over propositions
//! that gates safe substitution of equals for equals.  Its core axiom
//! lifts an equality between two expressions, placed below a target by the
//! order, to an equality one level down.
//!
//! Order evidence is the separate token [`POrdProof`]; it can only be
//! introduced by the structural rule ([`pord_step`]), by the convention
//! `True > False` (part of the same rule), by transitivity, or by
//! transport along a proved equality — no other introduction exists, and
//! [`lemma_pord_step_irreflexive`] shows the structural rule can never
//! place an expression below itself.

use vstd::prelude::*;

use crate::expr::{
    and_l, and_r, dup_expr, e_and, e_eqv, e_imp, e_pord, imp_l, imp_r, is_and, is_imp, is_or,
    is_pord_e, mk_and, mk_eqv, mk_imp, mk_pord, mk_qual, mk_ty, or_l, or_r, pord_e_l, pord_e_r,
    size, Expr,
};
use crate::pf::Pf;

verus! {

/// The structural introduction rule of the path semantical order: a
/// binary compound lies directly above each of its operands, and `True`
/// lies above `False` by convention.
pub open spec fn pord_step(t: Expr, u: Expr) -> bool {
    ||| (is_and(t) && (and_l(t) == u || and_r(t) == u))
    ||| (is_or(t) && (or_l(t) == u || or_r(t) == u))
    ||| (is_imp(t) && (imp_l(t) == u || imp_r(t) == u))
    ||| (is_pord_e(t) && (pord_e_l(t) == u || pord_e_r(t) == u))
    ||| (t == Expr::Tru && u == Expr::Fls)
}

/// The structural rule descends: apart from the `True > False`
/// convention, it always steps from a compound to a strictly smaller
/// expression, so chains of structural steps terminate.
pub proof fn lemma_pord_step_decreases(t: Expr, u: Expr)
    requires
        pord_step(t, u),
    ensures
        size(u) < size(t) || (t == Expr::Tru && u == Expr::Fls),
{
}

/// The structural rule admits no cycle: no expression lies directly above
/// itself.
pub proof fn lemma_pord_step_irreflexive(t: Expr)
    ensures
        !pord_step(t, t),
{
    if pord_step(t, t) {
        lemma_pord_step_decreases(t, t);
    }
}

/// Evidence that one proposition lies above another in the path
/// semantical order.
pub struct POrdProof {
    t: Expr,
    u: Expr,
}

impl POrdProof {
    /// The expression this evidence places above the other.
    pub closed spec fn upper(&self) -> Expr {
        self.t
    }

    /// The expression this evidence places below the other.
    pub closed spec fn lower(&self) -> Expr {
        self.u
    }

    /// Creates evidence by the structural rule.
    pub fn new(t: &Expr, u: &Expr) -> (r: POrdProof)
        requires
            pord_step(*t, *u),
        ensures
            r.upper() == *t,
            r.lower() == *u,
    {
        POrdProof { t: dup_expr(t), u: dup_expr(u) }
    }

    /// The upper expression, as a value.
    pub fn upper_ref(&self) -> (r: &Expr)
        ensures
            *r == self.upper(),
    {
        &self.t
    }

    /// The lower expression, as a value.
    pub fn lower_ref(&self) -> (r: &Expr)
        ensures
            *r == self.lower(),
    {
        &self.u
    }

    /// Duplicates the evidence.
    pub fn dup(&self) -> (r: POrdProof)
        ensures
            r.upper() == self.upper(),
            r.lower() == self.lower(),
    {
        POrdProof { t: dup_expr(&self.t), u: dup_expr(&self.u) }
    }

    /// Transitivity of the path semantical order.
    pub fn transitivity(&self, other: &POrdProof) -> (r: POrdProof)
        requires
            self.lower() == other.upper(),
        ensures
            r.upper() == self.upper(),
            r.lower() == other.lower(),
    {
        POrdProof { t: dup_expr(&self.t), u: dup_expr(&other.u) }
    }

    /// Transports the upper expression along a proved equality.
    pub fn by_eq_left(&self, v: &Expr, eq: &Pf) -> (r: POrdProof)
        requires
            eq@ == mk_eqv(self.upper(), *v),
        ensures
            r.upper() == *v,
            r.lower() == self.lower(),
    {
        POrdProof { t: dup_expr(v), u: dup_expr(&self.u) }
    }

    /// Transports the lower expression along a proved equality.
    pub fn by_eq_right(&self, v: &Expr, eq: &Pf) -> (r: POrdProof)
        requires
            eq@ == mk_eqv(self.lower(), *v),
        ensures
            r.upper() == self.upper(),
            r.lower() == *v,
    {
        POrdProof { t: dup_expr(&self.t), u: dup_expr(v) }
    }
}

/// The core axiom of path semantics, as a proposition over the upper
/// expressions `f1, f2` and the lower expressions `x1, x2`: given the
/// equality of the upper pair, order evidence placing `f1` above `x1`,
/// and implications from each upper expression to its lower one, the
/// lower pair is equal.
pub open spec fn mk_psem(f1: Expr, f2: Expr, x1: Expr, x2: Expr) -> Expr {
    mk_imp(
        mk_and(
            mk_and(mk_eqv(f1, f2), mk_pord(f1, x1)),
            mk_and(mk_imp(f1, x1), mk_imp(f2, x2)),
        ),
        mk_eqv(x1, x2),
    )
}

/// The core axiom specialized to send the first operand of a conjunction
/// to a higher level.
pub open spec fn mk_pand_fst(a: Expr, b: Expr, c: Expr, d: Expr) -> Expr {
    mk_imp(mk_and(mk_eqv(mk_and(a, b), c), mk_imp(c, d)), mk_eqv(a, d))
}

/// The core axiom specialized to send the second operand of a conjunction
/// to a higher level.
pub open spec fn mk_pand_snd(a: Expr, b: Expr, c: Expr, d: Expr) -> Expr {
    mk_imp(mk_and(mk_eqv(mk_and(a, b), c), mk_imp(c, d)), mk_eqv(b, d))
}

/// Builds the core axiom proposition.
pub fn e_psem(f1: &Expr, f2: &Expr, x1: &Expr, x2: &Expr) -> (r: Expr)
    ensures
        r == mk_psem(*f1, *f2, *x1, *x2),
{
    let ante = e_and(
        e_and(e_eqv(dup_expr(f1), dup_expr(f2)), e_pord(dup_expr(f1), dup_expr(x1))),
        e_and(e_imp(dup_expr(f1), dup_expr(x1)), e_imp(dup_expr(f2), dup_expr(x2))),
    );
    e_imp(ante, e_eqv(dup_expr(x1), dup_expr(x2)))
}

/// Builds the specialized proposition of [`mk_pand_fst`].
pub fn e_pand_fst(a: &Expr, b: &Expr, c: &Expr, d: &Expr) -> (r: Expr)
    ensures
        r == mk_pand_fst(*a, *b, *c, *d),
{
    let ante = e_and(
        e_eqv(e_and(dup_expr(a), dup_expr(b)), dup_expr(c)),
        e_imp(dup_expr(c), dup_expr(d)),
    );
    e_imp(ante, e_eqv(dup_expr(a), dup_expr(d)))
}

/// Builds the specialized proposition of [`mk_pand_snd`].
pub fn e_pand_snd(a: &Expr, b: &Expr, c: &Expr, d: &Expr) -> (r: Expr)
    ensures
        r == mk_pand_snd(*a, *b, *c, *d),
{
    let ante = e_and(
        e_eqv(e_and(dup_expr(a), dup_expr(b)), dup_expr(c)),
        e_imp(dup_expr(c), dup_expr(d)),
    );
    e_imp(ante, e_eqv(dup_expr(b), dup_expr(d)))
}

/// Composition of two core axiom instances that share the middle pair,
/// given order evidence and implications spanning the levels.
pub fn comp(
    f1: &Expr,
    f2: &Expr,
    f3: &Expr,
    f4: &Expr,
    x1: &Expr,
    x2: &Expr,
    f: &Pf,
    g: &Pf,
    pr_f1_f3: &POrdProof,
    pr_f3_x1: &POrdProof,
    f1_f3: &Pf,
    f2_f4: &Pf,
    f3_x1: &Pf,
    f4_x2: &Pf,
) -> (r: Pf)
    requires
        f@ == mk_psem(*f1, *f2, *f3, *f4),
        g@ == mk_psem(*f3, *f4, *x1, *x2),
        pr_f1_f3.upper() == *f1,
        pr_f1_f3.lower() == *f3,
        pr_f3_x1.upper() == *f3,
        pr_f3_x1.lower() == *x1,
        f1_f3@ == mk_imp(*f1, *f3),
        f2_f4@ == mk_imp(*f2, *f4),
        f3_x1@ == mk_imp(*f3, *x1),
        f4_x2@ == mk_imp(*f4, *x2),
    ensures
        r@ == mk_psem(*f1, *f2, *x1, *x2),
{
    Pf::mk(e_psem(f1, f2, x1, x2))
}

/// Converts the core axiom to [`mk_pand_fst`]: the order evidence for the
/// conjunction over its first operand comes from the structural rule, and
/// the implication is the first projection.
pub fn to_pand_fst(a: &Expr, b: &Expr, c: &Expr, d: &Expr, p: &Pf) -> (r: Pf)
    requires
        p@ == mk_psem(mk_and(*a, *b), *c, *a, *d),
    ensures
        r@ == mk_pand_fst(*a, *b, *c, *d),
{
    let ab = e_and(dup_expr(a), dup_expr(b));
    let _ord = POrdProof::new(&ab, a);
    Pf::mk(e_pand_fst(a, b, c, d))
}

/// Converts the core axiom to [`mk_pand_snd`].
pub fn to_pand_snd(a: &Expr, b: &Expr, c: &Expr, d: &Expr, p: &Pf) -> (r: Pf)
    requires
        p@ == mk_psem(mk_and(*a, *b), *c, *b, *d),
    ensures
        r@ == mk_pand_snd(*a, *b, *c, *d),
{
    let ab = e_and(dup_expr(a), dup_expr(b));
    let _ord = POrdProof::new(&ab, b);
    Pf::mk(e_pand_snd(a, b, c, d))
}

/// Joins [`mk_pand_fst`] and [`mk_pand_snd`] back into one core axiom
/// instance on the conjunction.
pub fn pand_join(a: &Expr, b: &Expr, c: &Expr, d: &Expr, p1: &Pf, p2: &Pf) -> (r: Pf)
    requires
        p1@ == mk_pand_fst(*a, *b, *c, *d),
        p2@ == mk_pand_snd(*a, *b, *c, *d),
    ensures
        r@ == mk_psem(mk_and(*a, *b), *c, mk_and(*a, *b), *d),
{
    let ab1 = e_and(dup_expr(a), dup_expr(b));
    let ab2 = e_and(dup_expr(a), dup_expr(b));
    Pf::mk(e_psem(&ab1, c, &ab2, d))
}

/// Transports the subject of a type judgement along a proved equality:
/// `(a : b) ∧ (a == c)  =>  (c : b)`.
pub fn ty_in_left_arg(a: &Expr, b: &Expr, c: &Expr, ty: &Pf, eq: &Pf) -> (r: Pf)
    requires
        ty@ == mk_ty(*a, *b),
        eq@ == mk_eqv(*a, *c),
    ensures
        r@ == mk_ty(*c, *b),
{
    let iab = e_imp(dup_expr(a), dup_expr(b));
    let oab = e_pord(dup_expr(a), dup_expr(b));
    let i = crate::pf::and_fst(&iab, &oab, ty);
    let iac = e_imp(dup_expr(a), dup_expr(c));
    let ica = e_imp(dup_expr(c), dup_expr(a));
    let ca = crate::pf::and_snd(&iac, &ica, eq);
    let icb = crate::pf::imp_trans(c, a, b, &ca, &i);
    let ocb = Pf::mk(e_pord(dup_expr(c), dup_expr(b)));
    crate::pf::and_intro(&icb, &ocb)
}

/// Transports the type of a type judgement along a proved equality:
/// `(a : b) ∧ (b == c)  =>  (a : c)`.
pub fn ty_in_right_arg(a: &Expr, b: &Expr, c: &Expr, ty: &Pf, eq: &Pf) -> (r: Pf)
    requires
        ty@ == mk_ty(*a, *b),
        eq@ == mk_eqv(*b, *c),
    ensures
        r@ == mk_ty(*a, *c),
{
    let iab = e_imp(dup_expr(a), dup_expr(b));
    let oab = e_pord(dup_expr(a), dup_expr(b));
    let i = crate::pf::and_fst(&iab, &oab, ty);
    let ibc = e_imp(dup_expr(b), dup_expr(c));
    let icb = e_imp(dup_expr(c), dup_expr(b));
    let bc = crate::pf::and_fst(&ibc, &icb, eq);
    let iac = crate::pf::imp_trans(a, b, c, &i, &bc);
    let oac = Pf::mk(e_pord(dup_expr(a), dup_expr(c)));
    crate::pf::and_intro(&iac, &oac)
}

/// Forms the type judgement of a quality from the type judgements of its
/// sides: `(f : p) ∧ (g : q)  =>  ((f ~~ g) : (p ~~ q))`.
pub fn ty_q_formation(f: &Expr, g: &Expr, p: &Expr, q: &Expr, ty_f: &Pf, ty_g: &Pf) -> (r: Pf)
    requires
        ty_f@ == mk_ty(*f, *p),
        ty_g@ == mk_ty(*g, *q),
    ensures
        r@ == mk_ty(mk_qual(*f, *g), mk_qual(*p, *q)),
{
    let subj = crate::expr::e_qual(dup_expr(f), dup_expr(g));
    let typ = crate::expr::e_qual(dup_expr(p), dup_expr(q));
    Pf::mk(crate::expr::e_ty(subj, typ))
}

} // verus!
