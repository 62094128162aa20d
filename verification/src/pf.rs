//! Proof tokens and the kernel rules.
//!
//! A [`Pf`] is a token for a derivation: it records the proposition it
//! establishes, and it can only be minted by the inference rules of this
//! crate.  [`Pf::hyp`] introduces a hypothesis; a proof assembled from
//! hypotheses is valid relative to them, exactly as a derivation carried
//! out under assumptions.
//!
//! The kernel rules of this module are the base calculus every other
//! module builds on: pairing and projections for conjunction, introduction
//! and elimination for disjunction, the implication rules that need no
//! hypothetical reasoning (identity, composition, constancy, modus ponens,
//! modus tollens), absurdity elimination, double negation introduction,
//! and the rules for exponentials, tautological equality and quality that
//! the higher layers consume.

use vstd::prelude::*;

use crate::expr::{
    dup_expr, mk_and, mk_eqv, mk_imp, mk_not, mk_or, mk_pow, mk_qu, mk_qual, mk_tauto, Expr,
};

verus! {

/// A proof token: it establishes the proposition returned by its view.
pub struct Pf {
    e: Expr,
}

impl View for Pf {
    type V = Expr;

    closed spec fn view(&self) -> Expr {
        self.e
    }
}

impl Pf {
    /// Mints a token for the given conclusion.  Kernel-private: every rule
    /// of the calculus funnels through this constructor.
    pub(crate) fn mk(e: Expr) -> (r: Pf)
        ensures
            r@ == e,
    {
        Pf { e }
    }

    /// Surrenders the token and hands back its conclusion.
    pub(crate) fn take(self) -> (e: Expr)
        ensures
            e == self@,
    {
        self.e
    }

    /// The proposition this token establishes.
    pub fn conclusion(&self) -> (r: &Expr)
        ensures
            *r == self@,
    {
        &self.e
    }

    /// Duplicates the token.  Proofs are assertions, not consumable
    /// resources, so duplication is semantics preserving.
    pub fn dup(&self) -> (r: Pf)
        ensures
            r@ == self@,
    {
        Pf { e: dup_expr(&self.e) }
    }

    /// Introduces the expression as a hypothesis.  A proof built from
    /// hypotheses establishes its conclusion relative to them.
    pub fn hyp(e: &Expr) -> (r: Pf)
        ensures
            r@ == *e,
    {
        Pf { e: dup_expr(e) }
    }
}

/// `true`.
pub fn truth() -> (r: Pf)
    ensures
        r@ == Expr::Tru,
{
    Pf::mk(Expr::Tru)
}

/// `a ∧ b` from `a` and `b`.
pub fn and_intro(p: &Pf, q: &Pf) -> (r: Pf)
    ensures
        r@ == mk_and(p@, q@),
{
    Pf::mk(crate::expr::e_and(p.dup().take(), q.dup().take()))
}

/// `a` from `a ∧ b`.
pub fn and_fst(a: &Expr, b: &Expr, p: &Pf) -> (r: Pf)
    requires
        p@ == mk_and(*a, *b),
    ensures
        r@ == *a,
{
    Pf::mk(dup_expr(a))
}

/// `b` from `a ∧ b`.
pub fn and_snd(a: &Expr, b: &Expr, p: &Pf) -> (r: Pf)
    requires
        p@ == mk_and(*a, *b),
    ensures
        r@ == *b,
{
    Pf::mk(dup_expr(b))
}

/// `a ∨ b` from `a`.
pub fn or_inl(p: &Pf, b: &Expr) -> (r: Pf)
    ensures
        r@ == mk_or(p@, *b),
{
    Pf::mk(crate::expr::e_or(p.dup().take(), dup_expr(b)))
}

/// `a ∨ b` from `b`.
pub fn or_inr(a: &Expr, p: &Pf) -> (r: Pf)
    ensures
        r@ == mk_or(*a, p@),
{
    Pf::mk(crate::expr::e_or(dup_expr(a), p.dup().take()))
}

/// `c` from `a ∨ b`, `a => c` and `b => c`.
pub fn or_elim(a: &Expr, b: &Expr, c: &Expr, p: &Pf, f: &Pf, g: &Pf) -> (r: Pf)
    requires
        p@ == mk_or(*a, *b),
        f@ == mk_imp(*a, *c),
        g@ == mk_imp(*b, *c),
    ensures
        r@ == *c,
{
    Pf::mk(dup_expr(c))
}

/// `a => a`.
pub fn imp_refl(a: &Expr) -> (r: Pf)
    ensures
        r@ == mk_imp(*a, *a),
{
    let a1 = dup_expr(a);
    let a2 = dup_expr(a);
    Pf::mk(crate::expr::e_imp(a1, a2))
}

/// `a => c` from `a => b` and `b => c`.
pub fn imp_trans(a: &Expr, b: &Expr, c: &Expr, f: &Pf, g: &Pf) -> (r: Pf)
    requires
        f@ == mk_imp(*a, *b),
        g@ == mk_imp(*b, *c),
    ensures
        r@ == mk_imp(*a, *c),
{
    Pf::mk(crate::expr::e_imp(dup_expr(a), dup_expr(c)))
}

/// `a => b` from `b`: a constant map ignoring its argument.
pub fn imp_const(a: &Expr, p: &Pf) -> (r: Pf)
    ensures
        r@ == mk_imp(*a, p@),
{
    Pf::mk(crate::expr::e_imp(dup_expr(a), p.dup().take()))
}

/// Modus ponens: `b` from `a => b` and `a`.
pub fn mp(a: &Expr, b: &Expr, f: &Pf, x: &Pf) -> (r: Pf)
    requires
        f@ == mk_imp(*a, *b),
        x@ == *a,
    ensures
        r@ == *b,
{
    Pf::mk(dup_expr(b))
}

/// Absurdity elimination: any proposition from `false`.
pub fn false_elim(p: &Pf, e: &Expr) -> (r: Pf)
    requires
        p@ == Expr::Fls,
    ensures
        r@ == *e,
{
    Pf::mk(dup_expr(e))
}

/// Vacuous implication: `false => a`.  Any map out of `false` is valid.
pub fn imp_from_false(a: &Expr) -> (r: Pf)
    ensures
        r@ == mk_imp(Expr::Fls, *a),
{
    Pf::mk(crate::expr::e_imp(Expr::Fls, dup_expr(a)))
}

/// Left disjunction introduction, as an implication: `a => a ∨ b`.
pub fn imp_or_inl(a: &Expr, b: &Expr) -> (r: Pf)
    ensures
        r@ == mk_imp(*a, mk_or(*a, *b)),
{
    let a1 = dup_expr(a);
    Pf::mk(crate::expr::e_imp(a1, crate::expr::e_or(dup_expr(a), dup_expr(b))))
}

/// Right disjunction introduction, as an implication: `b => a ∨ b`.
pub fn imp_or_inr(a: &Expr, b: &Expr) -> (r: Pf)
    ensures
        r@ == mk_imp(*b, mk_or(*a, *b)),
{
    let b1 = dup_expr(b);
    Pf::mk(crate::expr::e_imp(b1, crate::expr::e_or(dup_expr(a), dup_expr(b))))
}

/// Double negation introduction: `a => ¬¬a`.
pub fn double_neg_intro(a: &Expr) -> (r: Pf)
    ensures
        r@ == mk_imp(*a, mk_not(mk_not(*a))),
{
    let a1 = dup_expr(a);
    let a2 = dup_expr(a);
    Pf::mk(crate::expr::e_imp(a1, crate::expr::e_not(crate::expr::e_not(a2))))
}

/// Modus tollens on an implication: `¬b => ¬a` from `a => b`.
pub fn imp_modus_tollens(a: &Expr, b: &Expr, f: &Pf) -> (r: Pf)
    requires
        f@ == mk_imp(*a, *b),
    ensures
        r@ == mk_imp(mk_not(*b), mk_not(*a)),
{
    let nb = crate::expr::e_not(dup_expr(b));
    let na = crate::expr::e_not(dup_expr(a));
    Pf::mk(crate::expr::e_imp(nb, na))
}

/// Reverse modus tollens: `b => a` from `¬a => ¬b`.
pub fn imp_rev_modus_tollens(a: &Expr, b: &Expr, f: &Pf) -> (r: Pf)
    requires
        f@ == mk_imp(mk_not(*a), mk_not(*b)),
    ensures
        r@ == mk_imp(*b, *a),
{
    Pf::mk(crate::expr::e_imp(dup_expr(b), dup_expr(a)))
}

/// Exponential modus ponens: `b` from `b^a` and `a`.
pub fn pow_mp(a: &Expr, b: &Expr, f: &Pf, x: &Pf) -> (r: Pf)
    requires
        f@ == mk_pow(*b, *a),
        x@ == *a,
    ensures
        r@ == *b,
{
    Pf::mk(dup_expr(b))
}

/// An exponential weakens to an implication: `a => b` from `b^a`.
pub fn pow_to_imply(a: &Expr, b: &Expr, f: &Pf) -> (r: Pf)
    requires
        f@ == mk_pow(*b, *a),
    ensures
        r@ == mk_imp(*a, *b),
{
    Pf::mk(crate::expr::e_imp(dup_expr(a), dup_expr(b)))
}

/// Exponentials compose: `c^a` from `b^a` and `c^b`.
pub fn pow_transitivity(a: &Expr, b: &Expr, c: &Expr, f: &Pf, g: &Pf) -> (r: Pf)
    requires
        f@ == mk_pow(*b, *a),
        g@ == mk_pow(*c, *b),
    ensures
        r@ == mk_pow(*c, *a),
{
    Pf::mk(crate::expr::e_pow(dup_expr(c), dup_expr(a)))
}

/// A tautological equality yields the plain equality: `a == b` from
/// `(a == b)^true`.
pub fn tauto_eq_elim(a: &Expr, b: &Expr, p: &Pf) -> (r: Pf)
    requires
        p@ == mk_tauto(mk_eqv(*a, *b)),
    ensures
        r@ == mk_eqv(*a, *b),
{
    Pf::mk(crate::expr::e_eqv(dup_expr(a), dup_expr(b)))
}

/// Tautological equality is symmetric.
pub fn tauto_eq_symmetry(a: &Expr, b: &Expr, p: &Pf) -> (r: Pf)
    requires
        p@ == mk_tauto(mk_eqv(*a, *b)),
    ensures
        r@ == mk_tauto(mk_eqv(*b, *a)),
{
    Pf::mk(crate::expr::e_tauto(crate::expr::e_eqv(dup_expr(b), dup_expr(a))))
}

/// Tautological equality is transitive.
pub fn tauto_eq_transitivity(a: &Expr, b: &Expr, c: &Expr, p: &Pf, q: &Pf) -> (r: Pf)
    requires
        p@ == mk_tauto(mk_eqv(*a, *b)),
        q@ == mk_tauto(mk_eqv(*b, *c)),
    ensures
        r@ == mk_tauto(mk_eqv(*a, *c)),
{
    Pf::mk(crate::expr::e_tauto(crate::expr::e_eqv(dup_expr(a), dup_expr(c))))
}

/// A quality yields the plain equality: `a == b` from `a ~~ b`.
pub fn qual_to_eq(a: &Expr, b: &Expr, p: &Pf) -> (r: Pf)
    requires
        p@ == mk_qual(*a, *b),
    ensures
        r@ == mk_eqv(*a, *b),
{
    Pf::mk(crate::expr::e_eqv(dup_expr(a), dup_expr(b)))
}

/// A quality yields the qubit of its left side: `~a` from `a ~~ b`.
pub fn qual_left_qu(a: &Expr, b: &Expr, p: &Pf) -> (r: Pf)
    requires
        p@ == mk_qual(*a, *b),
    ensures
        r@ == mk_qu(*a),
{
    Pf::mk(crate::expr::e_qu(dup_expr(a)))
}

/// A quality yields the qubit of its right side: `~b` from `a ~~ b`.
pub fn qual_right_qu(a: &Expr, b: &Expr, p: &Pf) -> (r: Pf)
    requires
        p@ == mk_qual(*a, *b),
    ensures
        r@ == mk_qu(*b),
{
    Pf::mk(crate::expr::e_qu(dup_expr(b)))
}

/// Quality is symmetric.
pub fn qual_symmetry(a: &Expr, b: &Expr, p: &Pf) -> (r: Pf)
    requires
        p@ == mk_qual(*a, *b),
    ensures
        r@ == mk_qual(*b, *a),
{
    Pf::mk(crate::expr::e_qual(dup_expr(b), dup_expr(a)))
}

/// Quality is transitive.
pub fn qual_transitivity(a: &Expr, b: &Expr, c: &Expr, p: &Pf, q: &Pf) -> (r: Pf)
    requires
        p@ == mk_qual(*a, *b),
        q@ == mk_qual(*b, *c),
    ensures
        r@ == mk_qual(*a, *c),
{
    Pf::mk(crate::expr::e_qual(dup_expr(a), dup_expr(c)))
}

} // verus!
