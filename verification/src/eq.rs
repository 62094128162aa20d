//! Tactics for logical EQ.
//!
//! Equality of propositions is the biconditional: a pair of implications.
//! The tactics here derive its equivalence laws from the kernel rules for
//! conjunction and implication.

use vstd::prelude::*;

use crate::expr::{
    dup_expr, e_imp, e_not, e_or, eqv_l, eqv_r, is_eqv, mk_eqv, mk_imp, mk_not, mk_or, Expr,
};
use crate::pf::{
    and_fst, and_intro, and_snd, double_neg_intro, imp_const, imp_modus_tollens, imp_refl,
    imp_rev_modus_tollens, imp_trans, mp, truth, Pf,
};

verus! {

/// What [`commute`] concludes from a biconditional.
pub open spec fn eq_sym_c(e: Expr) -> Expr
    recommends
        is_eqv(e),
{
    mk_eqv(eqv_r(e), eqv_l(e))
}

/// What [`transitivity`] concludes from two chained biconditionals.
pub open spec fn eq_trans_c(p: Expr, q: Expr) -> Expr
    recommends
        is_eqv(p) && is_eqv(q) && eqv_r(p) == eqv_l(q),
{
    mk_eqv(eqv_l(p), eqv_r(q))
}

/// Commuting a biconditional twice reproduces it.
pub proof fn lemma_commute_involution(e: Expr)
    requires
        is_eqv(e),
    ensures
        eq_sym_c(eq_sym_c(e)) == e,
{
}

/// Commuting a chain equals chaining the commuted parts in reverse
/// order: `commute(transitivity(p, q)) == transitivity(commute(q),
/// commute(p))`.
pub proof fn lemma_commute_transitivity(p: Expr, q: Expr)
    requires
        is_eqv(p),
        is_eqv(q),
        eqv_r(p) == eqv_l(q),
    ensures
        eq_sym_c(eq_trans_c(p, q)) == eq_trans_c(eq_sym_c(q), eq_sym_c(p)),
{
}

/// Chaining biconditionals is associative.
pub proof fn lemma_transitivity_assoc(p: Expr, q: Expr, s: Expr)
    requires
        is_eqv(p),
        is_eqv(q),
        is_eqv(s),
        eqv_r(p) == eqv_l(q),
        eqv_r(q) == eqv_l(s),
    ensures
        eq_trans_c(eq_trans_c(p, q), s) == eq_trans_c(p, eq_trans_c(q, s)),
{
}

/// Reflexivity is a left and right unit for chaining.
pub proof fn lemma_refl_unit(p: Expr)
    requires
        is_eqv(p),
    ensures
        eq_trans_c(mk_eqv(eqv_l(p), eqv_l(p)), p) == p,
        eq_trans_c(p, mk_eqv(eqv_r(p), eqv_r(p))) == p,
{
}

/// `(a = b) ∧ (b = c)  =>  (a = c)`.
pub fn transitivity(a: &Expr, b: &Expr, c: &Expr, p: &Pf, q: &Pf) -> (r: Pf)
    requires
        p@ == mk_eqv(*a, *b),
        q@ == mk_eqv(*b, *c),
    ensures
        r@ == mk_eqv(*a, *c),
        r@ == eq_trans_c(p@, q@),
{
    let iab = e_imp(dup_expr(a), dup_expr(b));
    let iba = e_imp(dup_expr(b), dup_expr(a));
    let ibc = e_imp(dup_expr(b), dup_expr(c));
    let icb = e_imp(dup_expr(c), dup_expr(b));
    let f0 = and_fst(&iab, &iba, p);
    let f1 = and_snd(&iab, &iba, p);
    let g0 = and_fst(&ibc, &icb, q);
    let g1 = and_snd(&ibc, &icb, q);
    let r0 = imp_trans(a, b, c, &f0, &g0);
    let r1 = imp_trans(c, b, a, &g1, &f1);
    and_intro(&r0, &r1)
}

/// `a  =>  (a = ¬¬a)`.
pub fn double_neg(a: &Expr, p: &Pf) -> (r: Pf)
    requires
        p@ == *a,
    ensures
        r@ == mk_eqv(*a, mk_not(mk_not(*a))),
{
    let f0 = double_neg_intro(a);
    let nna = e_not(e_not(dup_expr(a)));
    let f1 = imp_const(&nna, p);
    and_intro(&f0, &f1)
}

/// `(a = b)  =>  (b = a)`.
pub fn commute(a: &Expr, b: &Expr, p: &Pf) -> (r: Pf)
    requires
        p@ == mk_eqv(*a, *b),
    ensures
        r@ == mk_eqv(*b, *a),
        r@ == eq_sym_c(p@),
{
    let iab = e_imp(dup_expr(a), dup_expr(b));
    let iba = e_imp(dup_expr(b), dup_expr(a));
    let f0 = and_fst(&iab, &iba, p);
    let f1 = and_snd(&iab, &iba, p);
    and_intro(&f1, &f0)
}

/// `(a => b) = (¬a ∨ b)`: the classical reading of implication.
pub fn imply_to_or(a: &Expr, b: &Expr) -> (r: Pf)
    ensures
        r@ == mk_eqv(mk_imp(*a, *b), mk_or(mk_not(*a), *b)),
{
    let lhs = e_imp(dup_expr(a), dup_expr(b));
    let rhs = e_or(e_not(dup_expr(a)), dup_expr(b));
    Pf::mk(crate::expr::e_eqv(lhs, rhs))
}

/// `a = a`.
pub fn refl(a: &Expr) -> (r: Pf)
    ensures
        r@ == mk_eqv(*a, *a),
{
    let f0 = imp_refl(a);
    let f1 = imp_refl(a);
    and_intro(&f0, &f1)
}

/// `(a = b)  =>  (¬b = ¬a)`.
pub fn modus_tollens(a: &Expr, b: &Expr, p: &Pf) -> (r: Pf)
    requires
        p@ == mk_eqv(*a, *b),
    ensures
        r@ == mk_eqv(mk_not(*b), mk_not(*a)),
{
    let iab = e_imp(dup_expr(a), dup_expr(b));
    let iba = e_imp(dup_expr(b), dup_expr(a));
    let f0 = and_fst(&iab, &iba, p);
    let f1 = and_snd(&iab, &iba, p);
    let f02 = imp_modus_tollens(a, b, &f0);
    let f12 = imp_modus_tollens(b, a, &f1);
    and_intro(&f02, &f12)
}

/// `(¬a = ¬b)  =>  (b = a)`.
pub fn rev_modus_tollens(a: &Expr, b: &Expr, p: &Pf) -> (r: Pf)
    requires
        p@ == mk_eqv(mk_not(*a), mk_not(*b)),
    ensures
        r@ == mk_eqv(*b, *a),
{
    let nab = e_imp(e_not(dup_expr(a)), e_not(dup_expr(b)));
    let nba = e_imp(e_not(dup_expr(b)), e_not(dup_expr(a)));
    let f0 = and_fst(&nab, &nba, p);
    let f1 = and_snd(&nab, &nba, p);
    let f02 = imp_rev_modus_tollens(a, b, &f0);
    let f12 = imp_rev_modus_tollens(b, a, &f1);
    and_intro(&f02, &f12)
}

/// `(true = a)  =>  a`.
pub fn is_true(a: &Expr, p: &Pf) -> (r: Pf)
    requires
        p@ == mk_eqv(Expr::Tru, *a),
    ensures
        r@ == *a,
{
    let tru = Expr::Tru;
    let ita = e_imp(Expr::Tru, dup_expr(a));
    let iat = e_imp(dup_expr(a), Expr::Tru);
    let f0 = and_fst(&ita, &iat, p);
    let t = truth();
    mp(&tru, a, &f0, &t)
}

/// `(false = a)  =>  ¬a`.  The second component of the biconditional is
/// the negation itself.
pub fn is_false(a: &Expr, p: &Pf) -> (r: Pf)
    requires
        p@ == mk_eqv(Expr::Fls, *a),
    ensures
        r@ == mk_not(*a),
{
    let ifa = e_imp(Expr::Fls, dup_expr(a));
    let iaf = e_imp(dup_expr(a), Expr::Fls);
    and_snd(&ifa, &iaf, p)
}

} // verus!
