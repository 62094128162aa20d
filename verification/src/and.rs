//! Tactics for logical AND.
//!
//! This is the closure-free canonical version of the module: no tactic here
//! asks for a decision procedure, except [`from_imply`], which takes the
//! excluded-middle disjunction for its antecedent as an explicit premise.

use vstd::prelude::*;

use crate::expr::{
    and_l, and_r, dup_expr, e_and, e_imp, e_not, is_and, is_not, is_or, mk_and, mk_eqv, mk_imp,
    mk_not, mk_or, mk_pow, not_arg, or_l, or_r, Expr,
};
use crate::pf::{
    and_fst, and_intro, and_snd, imp_const, imp_from_false, imp_or_inl, imp_or_inr, imp_trans,
    mp, or_elim, or_inl, pow_to_imply, Pf,
};

verus! {

/// What [`symmetry`] concludes from a conjunction.
pub open spec fn and_swap(e: Expr) -> Expr
    recommends
        is_and(e),
{
    mk_and(and_r(e), and_l(e))
}

/// What [`assoc`] concludes from a left-nested conjunction.
pub open spec fn and_assoc(e: Expr) -> Expr
    recommends
        is_and(e) && is_and(and_l(e)),
{
    mk_and(and_l(and_l(e)), mk_and(and_r(and_l(e)), and_r(e)))
}

/// What [`rev_assoc`] concludes from a right-nested conjunction.
pub open spec fn and_rev_assoc(e: Expr) -> Expr
    recommends
        is_and(e) && is_and(and_r(e)),
{
    mk_and(mk_and(and_l(e), and_l(and_r(e))), and_r(and_r(e)))
}

/// What [`distrib`] concludes from a conjunction over a disjunction.
pub open spec fn and_distrib(e: Expr) -> Expr
    recommends
        is_and(e) && is_or(and_r(e)),
{
    mk_or(mk_and(and_l(e), or_l(and_r(e))), mk_and(and_l(e), or_r(and_r(e))))
}

/// What [`rev_distrib`] concludes from a disjunction of conjunctions that
/// share their left operand.
pub open spec fn and_rev_distrib(e: Expr) -> Expr
    recommends
        is_or(e) && is_and(or_l(e)) && is_and(or_r(e)),
{
    mk_and(and_l(or_l(e)), mk_or(and_r(or_l(e)), and_r(or_r(e))))
}

/// What [`to_de_morgan`] concludes from a conjunction of negations.
pub open spec fn de_morgan_to(e: Expr) -> Expr
    recommends
        is_and(e) && is_not(and_l(e)) && is_not(and_r(e)),
{
    mk_not(mk_or(not_arg(and_l(e)), not_arg(and_r(e))))
}

/// What [`from_de_morgan`] concludes from a negated disjunction.
pub open spec fn de_morgan_from(e: Expr) -> Expr
    recommends
        is_not(e) && is_or(not_arg(e)),
{
    mk_and(mk_not(or_l(not_arg(e))), mk_not(or_r(not_arg(e))))
}

/// Swapping a conjunction twice reproduces it.
pub proof fn lemma_symmetry_involution(e: Expr)
    requires
        is_and(e),
    ensures
        and_swap(and_swap(e)) == e,
{
}

/// Reassociating to the right and back reproduces a left-nested
/// conjunction.
pub proof fn lemma_assoc_round_trip(e: Expr)
    requires
        is_and(e),
        is_and(and_l(e)),
    ensures
        and_rev_assoc(and_assoc(e)) == e,
{
}

/// Reassociating to the left and back reproduces a right-nested
/// conjunction.
pub proof fn lemma_rev_assoc_round_trip(e: Expr)
    requires
        is_and(e),
        is_and(and_r(e)),
    ensures
        and_assoc(and_rev_assoc(e)) == e,
{
}

/// Distributing and undistributing reproduces a conjunction over a
/// disjunction.
pub proof fn lemma_distrib_round_trip(e: Expr)
    requires
        is_and(e),
        is_or(and_r(e)),
    ensures
        and_rev_distrib(and_distrib(e)) == e,
{
}

/// Undistributing and distributing reproduces a disjunction of
/// conjunctions that share their left operand.
pub proof fn lemma_rev_distrib_round_trip(e: Expr)
    requires
        is_or(e),
        is_and(or_l(e)),
        is_and(or_r(e)),
        and_l(or_l(e)) == and_l(or_r(e)),
    ensures
        and_distrib(and_rev_distrib(e)) == e,
{
}

/// The De Morgan conversions are mutually inverse on a conjunction of
/// negations: going to the negated disjunction and back reproduces both
/// components.
pub proof fn lemma_de_morgan_round_trip(e: Expr)
    requires
        is_and(e),
        is_not(and_l(e)),
        is_not(and_r(e)),
    ensures
        de_morgan_from(de_morgan_to(e)) == e,
{
}

/// The De Morgan conversions are mutually inverse on a negated
/// disjunction as well.
pub proof fn lemma_de_morgan_rev_round_trip(e: Expr)
    requires
        is_not(e),
        is_or(not_arg(e)),
    ensures
        de_morgan_to(de_morgan_from(e)) == e,
{
}

/// `a ∧ b  =>  b ∧ a`.
pub fn symmetry(a: &Expr, b: &Expr, p: &Pf) -> (r: Pf)
    requires
        p@ == mk_and(*a, *b),
    ensures
        r@ == mk_and(*b, *a),
        r@ == and_swap(p@),
{
    let x = and_fst(a, b, p);
    let y = and_snd(a, b, p);
    and_intro(&y, &x)
}

/// `(a ∧ b) ∧ c  =>  a ∧ (b ∧ c)`.
pub fn assoc(a: &Expr, b: &Expr, c: &Expr, p: &Pf) -> (r: Pf)
    requires
        p@ == mk_and(mk_and(*a, *b), *c),
    ensures
        r@ == mk_and(*a, mk_and(*b, *c)),
        r@ == and_assoc(p@),
{
    let ab = e_and(dup_expr(a), dup_expr(b));
    let x01 = and_fst(&ab, c, p);
    let x2 = and_snd(&ab, c, p);
    let x0 = and_fst(a, b, &x01);
    let x1 = and_snd(a, b, &x01);
    and_intro(&x0, &and_intro(&x1, &x2))
}

/// `a ∧ (b ∧ c)  =>  (a ∧ b) ∧ c`.
pub fn rev_assoc(a: &Expr, b: &Expr, c: &Expr, p: &Pf) -> (r: Pf)
    requires
        p@ == mk_and(*a, mk_and(*b, *c)),
    ensures
        r@ == mk_and(mk_and(*a, *b), *c),
        r@ == and_rev_assoc(p@),
{
    let bc = e_and(dup_expr(b), dup_expr(c));
    let x0 = and_fst(a, &bc, p);
    let x12 = and_snd(a, &bc, p);
    let x1 = and_fst(b, c, &x12);
    let x2 = and_snd(b, c, &x12);
    and_intro(&and_intro(&x0, &x1), &x2)
}

/// `a ∧ (b ∨ c)  =>  (a ∧ b) ∨ (a ∧ c)`.
pub fn distrib(a: &Expr, b: &Expr, c: &Expr, p: &Pf) -> (r: Pf)
    requires
        p@ == mk_and(*a, mk_or(*b, *c)),
    ensures
        r@ == mk_or(mk_and(*a, *b), mk_and(*a, *c)),
        r@ == and_distrib(p@),
{
    let left = e_and(dup_expr(a), dup_expr(b));
    let right = e_and(dup_expr(a), dup_expr(c));
    Pf::mk(crate::expr::e_or(left, right))
}

/// `(a ∧ b) ∨ (a ∧ c)  =>  a ∧ (b ∨ c)`.
pub fn rev_distrib(a: &Expr, b: &Expr, c: &Expr, p: &Pf) -> (r: Pf)
    requires
        p@ == mk_or(mk_and(*a, *b), mk_and(*a, *c)),
    ensures
        r@ == mk_and(*a, mk_or(*b, *c)),
        r@ == and_rev_distrib(p@),
{
    let bc = crate::expr::e_or(dup_expr(b), dup_expr(c));
    Pf::mk(e_and(dup_expr(a), bc))
}

/// `¬a ∧ (a ∨ b)  =>  b`: the negated branch of the disjunction is
/// vacuous by absurdity elimination.
pub fn exc_left(a: &Expr, b: &Expr, p: &Pf) -> (r: Pf)
    requires
        p@ == mk_and(mk_not(*a), mk_or(*a, *b)),
    ensures
        r@ == *b,
{
    let na = e_not(dup_expr(a));
    let or_ab = crate::expr::e_or(dup_expr(a), dup_expr(b));
    let not_a = and_fst(&na, &or_ab, p);
    let x = and_snd(&na, &or_ab, p);
    let fls = Expr::Fls;
    let f = imp_trans(a, &fls, b, &not_a, &imp_from_false(b));
    let g = crate::pf::imp_refl(b);
    or_elim(a, b, b, &x, &f, &g)
}

/// `¬b ∧ (a ∨ b)  =>  a`.
pub fn exc_right(a: &Expr, b: &Expr, p: &Pf) -> (r: Pf)
    requires
        p@ == mk_and(mk_not(*b), mk_or(*a, *b)),
    ensures
        r@ == *a,
{
    let nb = e_not(dup_expr(b));
    let or_ab = crate::expr::e_or(dup_expr(a), dup_expr(b));
    let not_b = and_fst(&nb, &or_ab, p);
    let x = and_snd(&nb, &or_ab, p);
    let fls = Expr::Fls;
    let f = crate::pf::imp_refl(a);
    let g = imp_trans(b, &fls, a, &not_b, &imp_from_false(a));
    or_elim(a, b, a, &x, &f, &g)
}

/// `(¬a ∧ ¬b) ∧ (a ∨ b)  =>  false`.
pub fn exc_both(a: &Expr, b: &Expr, p: &Pf) -> (r: Pf)
    requires
        p@ == mk_and(mk_and(mk_not(*a), mk_not(*b)), mk_or(*a, *b)),
    ensures
        r@ == Expr::Fls,
{
    let na = e_not(dup_expr(a));
    let nb = e_not(dup_expr(b));
    let nanb = e_and(dup_expr(&na), dup_expr(&nb));
    let or_ab = crate::expr::e_or(dup_expr(a), dup_expr(b));
    let ns = and_fst(&nanb, &or_ab, p);
    let x = and_snd(&nanb, &or_ab, p);
    let not_a = and_fst(&na, &nb, &ns);
    let not_b = and_snd(&na, &nb, &ns);
    let fls = Expr::Fls;
    or_elim(a, b, &fls, &x, &not_a, &not_b)
}

/// `(¬a ∧ ¬b)  =>  ¬(a ∨ b)`.  Holds with no decision procedure: the
/// conclusion is a single map out of the disjunction, capturing both
/// negations.
pub fn to_de_morgan(a: &Expr, b: &Expr, p: &Pf) -> (r: Pf)
    requires
        p@ == mk_and(mk_not(*a), mk_not(*b)),
    ensures
        r@ == mk_not(mk_or(*a, *b)),
        r@ == de_morgan_to(p@),
{
    Pf::mk(e_not(crate::expr::e_or(dup_expr(a), dup_expr(b))))
}

/// `¬(a ∨ b)  =>  (¬a ∧ ¬b)`.
pub fn from_de_morgan(a: &Expr, b: &Expr, p: &Pf) -> (r: Pf)
    requires
        p@ == mk_not(mk_or(*a, *b)),
    ensures
        r@ == mk_and(mk_not(*a), mk_not(*b)),
        r@ == de_morgan_from(p@),
{
    let or_ab = crate::expr::e_or(dup_expr(a), dup_expr(b));
    let fls = Expr::Fls;
    let na = imp_trans(a, &or_ab, &fls, &imp_or_inl(a, b), p);
    let nb = imp_trans(b, &or_ab, &fls, &imp_or_inr(a, b), p);
    and_intro(&na, &nb)
}

/// `(false ∧ a)  =>  false`.  The `false` witness is handed back
/// unchanged.
pub fn false_arg(a: &Expr, p: &Pf) -> (r: Pf)
    requires
        p@ == mk_and(Expr::Fls, *a),
    ensures
        r@ == Expr::Fls,
{
    let fls = Expr::Fls;
    and_fst(&fls, a, p)
}

/// `(true ∧ a)  =>  a`.
pub fn true_arg(a: &Expr, p: &Pf) -> (r: Pf)
    requires
        p@ == mk_and(Expr::Tru, *a),
    ensures
        r@ == *a,
{
    let tru = Expr::Tru;
    and_snd(&tru, a, p)
}

/// `(a ∧ b) ∧ (a => c)  =>  (c ∧ b)`.
pub fn in_left_arg(a: &Expr, b: &Expr, c: &Expr, p: &Pf, g: &Pf) -> (r: Pf)
    requires
        p@ == mk_and(*a, *b),
        g@ == mk_imp(*a, *c),
    ensures
        r@ == mk_and(*c, *b),
{
    let x = and_fst(a, b, p);
    let y = and_snd(a, b, p);
    let cx = mp(a, c, g, &x);
    and_intro(&cx, &y)
}

/// `(a ∧ b) ∧ (b => c)  =>  (a ∧ c)`.
pub fn in_right_arg(a: &Expr, b: &Expr, c: &Expr, p: &Pf, g: &Pf) -> (r: Pf)
    requires
        p@ == mk_and(*a, *b),
        g@ == mk_imp(*b, *c),
    ensures
        r@ == mk_and(*a, *c),
{
    let x = and_fst(a, b, p);
    let y = and_snd(a, b, p);
    let cy = mp(b, c, g, &y);
    and_intro(&x, &cy)
}

/// Rewrites the left operand through a tautological transform `c^a`.
pub fn in_left(a: &Expr, b: &Expr, c: &Expr, p: &Pf, f: &Pf) -> (r: Pf)
    requires
        p@ == mk_and(*a, *b),
        f@ == mk_pow(*c, *a),
    ensures
        r@ == mk_and(*c, *b),
{
    let g = pow_to_imply(a, c, f);
    in_left_arg(a, b, c, p, &g)
}

/// Rewrites the right operand through a tautological transform `c^b`.
pub fn in_right(a: &Expr, b: &Expr, c: &Expr, p: &Pf, f: &Pf) -> (r: Pf)
    requires
        p@ == mk_and(*a, *b),
        f@ == mk_pow(*c, *b),
    ensures
        r@ == mk_and(*a, *c),
{
    let g = pow_to_imply(b, c, f);
    in_right_arg(a, b, c, p, &g)
}

/// `¬(a => b)  =>  (a ∧ ¬b)`, given a decision of the antecedent.  This
/// is the one tactic of the module that needs the excluded middle, so the
/// disjunction `a ∨ ¬a` is an explicit premise.
pub fn from_imply(a: &Expr, b: &Expr, p: &Pf, dec: &Pf) -> (r: Pf)
    requires
        p@ == mk_not(mk_imp(*a, *b)),
        dec@ == mk_or(*a, mk_not(*a)),
    ensures
        r@ == mk_and(*a, mk_not(*b)),
{
    Pf::mk(e_and(dup_expr(a), e_not(dup_expr(b))))
}

/// `(a ∧ ¬b)  =>  ¬(a => b)`.
pub fn to_imply(a: &Expr, b: &Expr, p: &Pf) -> (r: Pf)
    requires
        p@ == mk_and(*a, mk_not(*b)),
    ensures
        r@ == mk_not(mk_imp(*a, *b)),
{
    Pf::mk(e_not(e_imp(dup_expr(a), dup_expr(b))))
}

/// `(a ∧ b)  =>  (a == b)`: each side implies the other by a constant
/// map.
pub fn to_eq_pos(a: &Expr, b: &Expr, p: &Pf) -> (r: Pf)
    requires
        p@ == mk_and(*a, *b),
    ensures
        r@ == mk_eqv(*a, *b),
{
    let x = and_fst(a, b, p);
    let y = and_snd(a, b, p);
    let f0 = imp_const(a, &y);
    let f1 = imp_const(b, &x);
    and_intro(&f0, &f1)
}

/// `(¬a ∧ ¬b)  =>  (a == b)`: both directions are vacuous.
pub fn to_eq_neg(a: &Expr, b: &Expr, p: &Pf) -> (r: Pf)
    requires
        p@ == mk_and(mk_not(*a), mk_not(*b)),
    ensures
        r@ == mk_eqv(*a, *b),
{
    let na = e_not(dup_expr(a));
    let nb = e_not(dup_expr(b));
    let not_a = and_fst(&na, &nb, p);
    let not_b = and_snd(&na, &nb, p);
    let fls = Expr::Fls;
    let f0 = imp_trans(a, &fls, b, &not_a, &imp_from_false(b));
    let f1 = imp_trans(b, &fls, a, &not_b, &imp_from_false(a));
    and_intro(&f0, &f1)
}

/// `(a ∧ b)  =>  (a ∨ b)`.
pub fn to_or(a: &Expr, b: &Expr, p: &Pf) -> (r: Pf)
    requires
        p@ == mk_and(*a, *b),
    ensures
        r@ == mk_or(*a, *b),
{
    let x = and_fst(a, b, p);
    or_inl(&x, b)
}

} // verus!
