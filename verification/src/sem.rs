//! Truth-value semantics for the propositional fragment.
//!
//! A valuation assigns a truth value to every expression.  `True`,
//! `False`, conjunction, disjunction and implication are evaluated
//! structurally; every other former — variables, order evidence,
//! exponentials, qubits and the functional formers — is read off the
//! valuation as an opaque leaf.  Negation and propositional equality need
//! no cases of their own, since they are implication and conjunction
//! shapes.
//!
//! The lemmas here show that the transformations performed by the
//! propositional rules are sound under every valuation: whenever the
//! premises hold, the conclusion holds.  The rules of the path semantical
//! and functional layers are not of this kind — they hold only in models
//! of the theory's axioms — and [`lemma_core_axiom_is_not_propositional`]
//! exhibits a valuation refuting the core axiom, which is why the
//! calculus consumes core axiom instances as premises and never mints one
//! out of nothing.

use vstd::prelude::*;

use crate::expr::{mk_and, mk_eqv, mk_imp, mk_not, mk_or, Expr};
use crate::path_semantics::mk_psem;

verus! {

/// Truth of an expression under a valuation of the opaque leaves.
pub open spec fn evals(v: Map<Expr, bool>, e: Expr) -> bool
    decreases e,
{
    match e {
        Expr::Tru => true,
        Expr::Fls => false,
        Expr::And(a, b) => evals(v, *a) && evals(v, *b),
        Expr::Or(a, b) => evals(v, *a) || evals(v, *b),
        Expr::Imp(a, b) => evals(v, *a) ==> evals(v, *b),
        _ => v[e],
    }
}

/// Swapping a conjunction preserves truth.
pub proof fn lemma_symmetry_sound(v: Map<Expr, bool>, a: Expr, b: Expr)
    ensures
        evals(v, mk_and(a, b)) == evals(v, mk_and(b, a)),
{
    reveal_with_fuel(evals, 8);
}

/// Reassociating a conjunction preserves truth.
pub proof fn lemma_assoc_sound(v: Map<Expr, bool>, a: Expr, b: Expr, c: Expr)
    ensures
        evals(v, mk_and(mk_and(a, b), c)) == evals(v, mk_and(a, mk_and(b, c))),
{
    reveal_with_fuel(evals, 8);
}

/// Distributing a conjunction over a disjunction preserves truth, in
/// both directions.
pub proof fn lemma_distrib_sound(v: Map<Expr, bool>, a: Expr, b: Expr, c: Expr)
    ensures
        evals(v, mk_and(a, mk_or(b, c))) == evals(v, mk_or(mk_and(a, b), mk_and(a, c))),
{
    reveal_with_fuel(evals, 8);
}

/// The exclusion rules are sound: a disjunction with one side refuted
/// yields the other side, and with both sides refuted it is absurd.
pub proof fn lemma_exclusion_sound(v: Map<Expr, bool>, a: Expr, b: Expr)
    ensures
        evals(v, mk_and(mk_not(a), mk_or(a, b))) ==> evals(v, b),
        evals(v, mk_and(mk_not(b), mk_or(a, b))) ==> evals(v, a),
        !evals(v, mk_and(mk_and(mk_not(a), mk_not(b)), mk_or(a, b))),
{
    reveal_with_fuel(evals, 8);
}

/// The De Morgan conversion preserves truth, in both directions.
pub proof fn lemma_de_morgan_sound(v: Map<Expr, bool>, a: Expr, b: Expr)
    ensures
        evals(v, mk_and(mk_not(a), mk_not(b))) == evals(v, mk_not(mk_or(a, b))),
{
    reveal_with_fuel(evals, 8);
}

/// Converting between a refuted implication and a conjunction with a
/// refuted consequent preserves truth.
pub proof fn lemma_imply_conversion_sound(v: Map<Expr, bool>, a: Expr, b: Expr)
    ensures
        evals(v, mk_and(a, mk_not(b))) == evals(v, mk_not(mk_imp(a, b))),
{
    reveal_with_fuel(evals, 8);
}

/// The classical reading of implication holds under every valuation.
pub proof fn lemma_imply_to_or_sound(v: Map<Expr, bool>, a: Expr, b: Expr)
    ensures
        evals(v, mk_eqv(mk_imp(a, b), mk_or(mk_not(a), b))),
{
    reveal_with_fuel(evals, 8);
}

/// Propositional equality is an equivalence under every valuation, and
/// a conjunction of two propositions, or of their two refutations,
/// yields their equality.
pub proof fn lemma_eq_sound(v: Map<Expr, bool>, a: Expr, b: Expr, c: Expr)
    ensures
        evals(v, mk_eqv(a, a)),
        evals(v, mk_eqv(a, b)) == evals(v, mk_eqv(b, a)),
        evals(v, mk_eqv(a, b)) && evals(v, mk_eqv(b, c)) ==> evals(v, mk_eqv(a, c)),
        evals(v, mk_and(a, b)) ==> evals(v, mk_eqv(a, b)),
        evals(v, mk_and(mk_not(a), mk_not(b))) ==> evals(v, mk_eqv(a, b)),
{
    reveal_with_fuel(evals, 8);
}

/// Modus tollens on an equality preserves truth, in both directions.
pub proof fn lemma_modus_tollens_sound(v: Map<Expr, bool>, a: Expr, b: Expr)
    ensures
        evals(v, mk_eqv(a, b)) == evals(v, mk_eqv(mk_not(b), mk_not(a))),
{
    reveal_with_fuel(evals, 8);
}

/// Double negation is an equality under every valuation.
pub proof fn lemma_double_neg_sound(v: Map<Expr, bool>, a: Expr)
    ensures
        evals(v, mk_eqv(a, mk_not(mk_not(a)))),
{
    reveal_with_fuel(evals, 8);
}

/// The boundary projections are sound: an equality with `true` yields
/// the proposition, an equality with `false` yields its refutation.
pub proof fn lemma_boundary_sound(v: Map<Expr, bool>, a: Expr)
    ensures
        evals(v, mk_eqv(Expr::Tru, a)) ==> evals(v, a),
        evals(v, mk_eqv(Expr::Fls, a)) ==> evals(v, mk_not(a)),
{
    reveal_with_fuel(evals, 8);
}

/// The kernel rules for implication are sound: identity, composition,
/// constancy, modus ponens and disjunction elimination.
pub proof fn lemma_kernel_sound(v: Map<Expr, bool>, a: Expr, b: Expr, c: Expr)
    ensures
        evals(v, mk_imp(a, a)),
        evals(v, mk_imp(a, b)) && evals(v, mk_imp(b, c)) ==> evals(v, mk_imp(a, c)),
        evals(v, b) ==> evals(v, mk_imp(a, b)),
        evals(v, mk_imp(a, b)) && evals(v, a) ==> evals(v, b),
        evals(v, mk_or(a, b)) && evals(v, mk_imp(a, c)) && evals(v, mk_imp(b, c)) ==> evals(
            v,
            c,
        ),
        evals(v, mk_imp(Expr::Fls, a)),
{
    reveal_with_fuel(evals, 8);
}

/// The core axiom of path semantics is not propositionally valid: under
/// the valuation that makes every opaque leaf true, the instance with
/// `false` on the upper level and `true, false` on the lower level
/// evaluates to false.  Lifting equality across levels is sound only in
/// models of the path semantical axioms, so the calculus takes core
/// axiom instances as premises and derives from them.
pub proof fn lemma_core_axiom_is_not_propositional()
    ensures
        !evals(
            Map::total(|e: Expr| true),
            mk_psem(Expr::Fls, Expr::Fls, Expr::Tru, Expr::Fls),
        ),
{
    reveal_with_fuel(evals, 8);
}

} // verus!
