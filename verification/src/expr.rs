//! Syntax of propositions.
//!
//! A proposition is a tree built from the core connectives (`True`, `False`,
//! conjunction, disjunction, implication), the path semantical order former,
//! the exponential (tautology) former, the qubit former, and the functional
//! formers (application, imaginary inverse, composition, tuples, binders,
//! substitution, constancy, the named standard functions and the universe
//! levels).
//!
//! Negation and biconditional equality are not separate formers: as in the
//! calculus itself, `¬a` is the implication `a => False` and `a == b` is the
//! pair of implications `(a => b) ∧ (b => a)`.  The spec-level constructors
//! [`mk_not`] and [`mk_eqv`] build exactly those shapes.

use vstd::prelude::*;

verus! {

/// A proposition, as a syntax tree.
pub enum Expr {
    /// The trivially true proposition.
    Tru,
    /// The uninhabited proposition.
    Fls,
    /// A propositional variable, identified by an index.
    Var(u64),
    /// Conjunction of two propositions.
    And(Box<Expr>, Box<Expr>),
    /// Disjunction of two propositions.
    Or(Box<Expr>, Box<Expr>),
    /// Implication from the first proposition to the second.
    Imp(Box<Expr>, Box<Expr>),
    /// Path semantical order evidence, as a proposition: the first
    /// expression lies directly above the second.
    Pord(Box<Expr>, Box<Expr>),
    /// The exponential `b^a`: first the result, then the exponent.  A proof
    /// of `Pow(b, a)` stands for a derivation of `b` valid under every
    /// instantiation of `a`; `Pow(b, Tru)` says `b` holds tautologically.
    Pow(Box<Expr>, Box<Expr>),
    /// The qubit operator `~a`.
    Qu(Box<Expr>),
    /// Application of a function expression to an argument expression.
    App(Box<Expr>, Box<Expr>),
    /// The imaginary inverse of a function expression.
    Inv(Box<Expr>),
    /// Composition `Comp(g, f)`: apply `f` first, then `g`.
    Comp(Box<Expr>, Box<Expr>),
    /// An ordered pair.
    Tup(Box<Expr>, Box<Expr>),
    /// A binder `Lam(head, body)`; the head is usually a type judgement.
    Lam(Box<Expr>, Box<Expr>),
    /// `Subst(e, a, b)`: the expression `e` with `a` replaced by `b`.
    Subst(Box<Expr>, Box<Expr>, Box<Expr>),
    /// The judgement that an expression is variable-independent.
    IsConst(Box<Expr>),
    /// The identity function.
    FId,
    /// The duplicating function `a ↦ (a, a)`.
    Dup,
    /// First projection from a pair.
    Fst,
    /// Second projection from a pair.
    Snd,
    /// The parallel-tuple former: applied to a pair of functions it maps a
    /// pair componentwise.
    ParTup,
    /// The function extensionality bridge.
    FunExt,
    /// The cumulative universe at the given level.
    TypeU(u64),
}

/// Number of formers in an expression; used to show the structural part of
/// the path semantical order admits no cycle.
pub open spec fn size(e: Expr) -> nat
    decreases e,
{
    match e {
        Expr::And(a, b) => 1 + size(*a) + size(*b),
        Expr::Or(a, b) => 1 + size(*a) + size(*b),
        Expr::Imp(a, b) => 1 + size(*a) + size(*b),
        Expr::Pord(a, b) => 1 + size(*a) + size(*b),
        Expr::Pow(a, b) => 1 + size(*a) + size(*b),
        Expr::Qu(a) => 1 + size(*a),
        Expr::App(a, b) => 1 + size(*a) + size(*b),
        Expr::Inv(a) => 1 + size(*a),
        Expr::Comp(a, b) => 1 + size(*a) + size(*b),
        Expr::Tup(a, b) => 1 + size(*a) + size(*b),
        Expr::Lam(a, b) => 1 + size(*a) + size(*b),
        Expr::Subst(a, b, c) => 1 + size(*a) + size(*b) + size(*c),
        Expr::IsConst(a) => 1 + size(*a),
        _ => 1,
    }
}

// Spec-level constructors.

/// `a ∧ b`.
pub open spec fn mk_and(a: Expr, b: Expr) -> Expr {
    Expr::And(Box::new(a), Box::new(b))
}

/// `a ∨ b`.
pub open spec fn mk_or(a: Expr, b: Expr) -> Expr {
    Expr::Or(Box::new(a), Box::new(b))
}

/// `a => b`.
pub open spec fn mk_imp(a: Expr, b: Expr) -> Expr {
    Expr::Imp(Box::new(a), Box::new(b))
}

/// `¬a`, defined as `a => False`.
pub open spec fn mk_not(a: Expr) -> Expr {
    mk_imp(a, Expr::Fls)
}

/// `a == b`, defined as `(a => b) ∧ (b => a)`.
pub open spec fn mk_eqv(a: Expr, b: Expr) -> Expr {
    mk_and(mk_imp(a, b), mk_imp(b, a))
}

/// Path semantical order evidence `a > b`, as a proposition.
pub open spec fn mk_pord(a: Expr, b: Expr) -> Expr {
    Expr::Pord(Box::new(a), Box::new(b))
}

/// The exponential `b^a`.
pub open spec fn mk_pow(b: Expr, a: Expr) -> Expr {
    Expr::Pow(Box::new(b), Box::new(a))
}

/// `a` holds tautologically: `a^True`.
pub open spec fn mk_tauto(a: Expr) -> Expr {
    mk_pow(a, Expr::Tru)
}

/// The qubit `~a`.
pub open spec fn mk_qu(a: Expr) -> Expr {
    Expr::Qu(Box::new(a))
}

/// Path semantical quality `a ~~ b`, defined as `(a == b) ∧ (~a ∧ ~b)`.
pub open spec fn mk_qual(a: Expr, b: Expr) -> Expr {
    mk_and(mk_eqv(a, b), mk_and(mk_qu(a), mk_qu(b)))
}

/// The type judgement `a : b`, defined as `(a => b) ∧ (a > b)`.
pub open spec fn mk_ty(a: Expr, b: Expr) -> Expr {
    mk_and(mk_imp(a, b), mk_pord(a, b))
}

/// `f(x)`.
pub open spec fn mk_app(f: Expr, x: Expr) -> Expr {
    Expr::App(Box::new(f), Box::new(x))
}

/// `f(x)(y)`.
pub open spec fn mk_app2(f: Expr, x: Expr, y: Expr) -> Expr {
    mk_app(mk_app(f, x), y)
}

/// `inv(f)`.
pub open spec fn mk_inv(f: Expr) -> Expr {
    Expr::Inv(Box::new(f))
}

/// `g . f`.
pub open spec fn mk_comp(g: Expr, f: Expr) -> Expr {
    Expr::Comp(Box::new(g), Box::new(f))
}

/// `(a, b)`.
pub open spec fn mk_tup(a: Expr, b: Expr) -> Expr {
    Expr::Tup(Box::new(a), Box::new(b))
}

/// `(a, b, c)`, right nested.
pub open spec fn mk_tup3(a: Expr, b: Expr, c: Expr) -> Expr {
    mk_tup(a, mk_tup(b, c))
}

/// `\(head) = body`.
pub open spec fn mk_lam(head: Expr, body: Expr) -> Expr {
    Expr::Lam(Box::new(head), Box::new(body))
}

/// `e[a := b]`.
pub open spec fn mk_subst(e: Expr, a: Expr, b: Expr) -> Expr {
    Expr::Subst(Box::new(e), Box::new(a), Box::new(b))
}

/// `is_const(a)`.
pub open spec fn mk_isconst(a: Expr) -> Expr {
    Expr::IsConst(Box::new(a))
}

// Shape predicates and accessors, for stating laws about transformations.

/// Whether the expression is a conjunction.
pub open spec fn is_and(e: Expr) -> bool {
    e matches Expr::And(_, _)
}

/// Left operand of a conjunction.
pub open spec fn and_l(e: Expr) -> Expr
    recommends
        is_and(e),
{
    match e {
        Expr::And(a, _) => *a,
        _ => arbitrary(),
    }
}

/// Right operand of a conjunction.
pub open spec fn and_r(e: Expr) -> Expr
    recommends
        is_and(e),
{
    match e {
        Expr::And(_, b) => *b,
        _ => arbitrary(),
    }
}

/// Whether the expression is a disjunction.
pub open spec fn is_or(e: Expr) -> bool {
    e matches Expr::Or(_, _)
}

/// Left operand of a disjunction.
pub open spec fn or_l(e: Expr) -> Expr
    recommends
        is_or(e),
{
    match e {
        Expr::Or(a, _) => *a,
        _ => arbitrary(),
    }
}

/// Right operand of a disjunction.
pub open spec fn or_r(e: Expr) -> Expr
    recommends
        is_or(e),
{
    match e {
        Expr::Or(_, b) => *b,
        _ => arbitrary(),
    }
}

/// Whether the expression is path order evidence.
pub open spec fn is_pord_e(e: Expr) -> bool {
    e matches Expr::Pord(_, _)
}

/// Upper expression of path order evidence.
pub open spec fn pord_e_l(e: Expr) -> Expr
    recommends
        is_pord_e(e),
{
    match e {
        Expr::Pord(a, _) => *a,
        _ => arbitrary(),
    }
}

/// Lower expression of path order evidence.
pub open spec fn pord_e_r(e: Expr) -> Expr
    recommends
        is_pord_e(e),
{
    match e {
        Expr::Pord(_, b) => *b,
        _ => arbitrary(),
    }
}

/// Whether the expression is an implication.
pub open spec fn is_imp(e: Expr) -> bool {
    e matches Expr::Imp(_, _)
}

/// Antecedent of an implication.
pub open spec fn imp_l(e: Expr) -> Expr
    recommends
        is_imp(e),
{
    match e {
        Expr::Imp(a, _) => *a,
        _ => arbitrary(),
    }
}

/// Consequent of an implication.
pub open spec fn imp_r(e: Expr) -> Expr
    recommends
        is_imp(e),
{
    match e {
        Expr::Imp(_, b) => *b,
        _ => arbitrary(),
    }
}

/// Whether the expression is a negation, that is an implication into `False`.
pub open spec fn is_not(e: Expr) -> bool {
    is_imp(e) && imp_r(e) == Expr::Fls
}

/// The proposition a negation denies.
pub open spec fn not_arg(e: Expr) -> Expr
    recommends
        is_not(e),
{
    imp_l(e)
}

/// Whether the expression is a biconditional, that is a conjunction of an
/// implication with its converse.
pub open spec fn is_eqv(e: Expr) -> bool {
    &&& is_and(e)
    &&& is_imp(and_l(e))
    &&& is_imp(and_r(e))
    &&& imp_l(and_l(e)) == imp_r(and_r(e))
    &&& imp_r(and_l(e)) == imp_l(and_r(e))
}

/// Left side of a biconditional.
pub open spec fn eqv_l(e: Expr) -> Expr
    recommends
        is_eqv(e),
{
    imp_l(and_l(e))
}

/// Right side of a biconditional.
pub open spec fn eqv_r(e: Expr) -> Expr
    recommends
        is_eqv(e),
{
    imp_r(and_l(e))
}

// Executable constructors.  Each returns exactly the expression its
// spec-level counterpart describes.

/// Builds a variable.
pub fn e_var(n: u64) -> (r: Expr)
    ensures
        r == Expr::Var(n),
{
    Expr::Var(n)
}

/// Builds a conjunction.
pub fn e_and(a: Expr, b: Expr) -> (r: Expr)
    ensures
        r == mk_and(a, b),
{
    Expr::And(Box::new(a), Box::new(b))
}

/// Builds a disjunction.
pub fn e_or(a: Expr, b: Expr) -> (r: Expr)
    ensures
        r == mk_or(a, b),
{
    Expr::Or(Box::new(a), Box::new(b))
}

/// Builds an implication.
pub fn e_imp(a: Expr, b: Expr) -> (r: Expr)
    ensures
        r == mk_imp(a, b),
{
    Expr::Imp(Box::new(a), Box::new(b))
}

/// Builds a negation.
pub fn e_not(a: Expr) -> (r: Expr)
    ensures
        r == mk_not(a),
{
    e_imp(a, Expr::Fls)
}

/// Builds a biconditional.
pub fn e_eqv(a: Expr, b: Expr) -> (r: Expr)
    ensures
        r == mk_eqv(a, b),
{
    let a2 = dup_expr(&a);
    let b2 = dup_expr(&b);
    e_and(e_imp(a, b), e_imp(b2, a2))
}

/// Builds path semantical order evidence, as a proposition.
pub fn e_pord(a: Expr, b: Expr) -> (r: Expr)
    ensures
        r == mk_pord(a, b),
{
    Expr::Pord(Box::new(a), Box::new(b))
}

/// Builds an exponential.
pub fn e_pow(b: Expr, a: Expr) -> (r: Expr)
    ensures
        r == mk_pow(b, a),
{
    Expr::Pow(Box::new(b), Box::new(a))
}

/// Builds a tautology judgement.
pub fn e_tauto(a: Expr) -> (r: Expr)
    ensures
        r == mk_tauto(a),
{
    e_pow(a, Expr::Tru)
}

/// Builds a qubit.
pub fn e_qu(a: Expr) -> (r: Expr)
    ensures
        r == mk_qu(a),
{
    Expr::Qu(Box::new(a))
}

/// Builds a quality.
pub fn e_qual(a: Expr, b: Expr) -> (r: Expr)
    ensures
        r == mk_qual(a, b),
{
    let a2 = dup_expr(&a);
    let b2 = dup_expr(&b);
    e_and(e_eqv(a, b), e_and(e_qu(a2), e_qu(b2)))
}

/// Builds a type judgement.
pub fn e_ty(a: Expr, b: Expr) -> (r: Expr)
    ensures
        r == mk_ty(a, b),
{
    let a2 = dup_expr(&a);
    let b2 = dup_expr(&b);
    e_and(e_imp(a, b), e_pord(a2, b2))
}

/// Builds an application.
pub fn e_app(f: Expr, x: Expr) -> (r: Expr)
    ensures
        r == mk_app(f, x),
{
    Expr::App(Box::new(f), Box::new(x))
}

/// Builds an inverse.
pub fn e_inv(f: Expr) -> (r: Expr)
    ensures
        r == mk_inv(f),
{
    Expr::Inv(Box::new(f))
}

/// Builds a composition.
pub fn e_comp(g: Expr, f: Expr) -> (r: Expr)
    ensures
        r == mk_comp(g, f),
{
    Expr::Comp(Box::new(g), Box::new(f))
}

/// Builds a pair.
pub fn e_tup(a: Expr, b: Expr) -> (r: Expr)
    ensures
        r == mk_tup(a, b),
{
    Expr::Tup(Box::new(a), Box::new(b))
}

/// Builds a binder.
pub fn e_lam(head: Expr, body: Expr) -> (r: Expr)
    ensures
        r == mk_lam(head, body),
{
    Expr::Lam(Box::new(head), Box::new(body))
}

/// Builds a substitution.
pub fn e_subst(e: Expr, a: Expr, b: Expr) -> (r: Expr)
    ensures
        r == mk_subst(e, a, b),
{
    Expr::Subst(Box::new(e), Box::new(a), Box::new(b))
}

/// Builds a constancy judgement.
pub fn e_isconst(a: Expr) -> (r: Expr)
    ensures
        r == mk_isconst(a),
{
    Expr::IsConst(Box::new(a))
}

/// Structural copy of an expression.  Proofs and the expressions they
/// mention are assertions, not consumable resources, so copying is
/// semantics preserving by construction.
pub fn dup_expr(e: &Expr) -> (r: Expr)
    ensures
        r == *e,
    decreases *e,
{
    match e {
        Expr::Tru => Expr::Tru,
        Expr::Fls => Expr::Fls,
        Expr::Var(n) => Expr::Var(*n),
        Expr::And(a, b) => Expr::And(Box::new(dup_expr(a)), Box::new(dup_expr(b))),
        Expr::Or(a, b) => Expr::Or(Box::new(dup_expr(a)), Box::new(dup_expr(b))),
        Expr::Imp(a, b) => Expr::Imp(Box::new(dup_expr(a)), Box::new(dup_expr(b))),
        Expr::Pord(a, b) => Expr::Pord(Box::new(dup_expr(a)), Box::new(dup_expr(b))),
        Expr::Pow(a, b) => Expr::Pow(Box::new(dup_expr(a)), Box::new(dup_expr(b))),
        Expr::Qu(a) => Expr::Qu(Box::new(dup_expr(a))),
        Expr::App(a, b) => Expr::App(Box::new(dup_expr(a)), Box::new(dup_expr(b))),
        Expr::Inv(a) => Expr::Inv(Box::new(dup_expr(a))),
        Expr::Comp(a, b) => Expr::Comp(Box::new(dup_expr(a)), Box::new(dup_expr(b))),
        Expr::Tup(a, b) => Expr::Tup(Box::new(dup_expr(a)), Box::new(dup_expr(b))),
        Expr::Lam(a, b) => Expr::Lam(Box::new(dup_expr(a)), Box::new(dup_expr(b))),
        Expr::Subst(a, b, c) => Expr::Subst(
            Box::new(dup_expr(a)),
            Box::new(dup_expr(b)),
            Box::new(dup_expr(c)),
        ),
        Expr::IsConst(a) => Expr::IsConst(Box::new(dup_expr(a))),
        Expr::FId => Expr::FId,
        Expr::Dup => Expr::Dup,
        Expr::Fst => Expr::Fst,
        Expr::Snd => Expr::Snd,
        Expr::ParTup => Expr::ParTup,
        Expr::FunExt => Expr::FunExt,
        Expr::TypeU(n) => Expr::TypeU(*n),
    }
}

/// Structural equality of two expressions.
pub fn eq_expr(a: &Expr, b: &Expr) -> (r: bool)
    ensures
        r == (*a == *b),
    decreases *a,
{
    match (a, b) {
        (Expr::Tru, Expr::Tru) => true,
        (Expr::Fls, Expr::Fls) => true,
        (Expr::Var(x), Expr::Var(y)) => *x == *y,
        (Expr::And(a1, a2), Expr::And(b1, b2)) => eq_expr(a1, b1) && eq_expr(a2, b2),
        (Expr::Or(a1, a2), Expr::Or(b1, b2)) => eq_expr(a1, b1) && eq_expr(a2, b2),
        (Expr::Imp(a1, a2), Expr::Imp(b1, b2)) => eq_expr(a1, b1) && eq_expr(a2, b2),
        (Expr::Pord(a1, a2), Expr::Pord(b1, b2)) => eq_expr(a1, b1) && eq_expr(a2, b2),
        (Expr::Pow(a1, a2), Expr::Pow(b1, b2)) => eq_expr(a1, b1) && eq_expr(a2, b2),
        (Expr::Qu(a1), Expr::Qu(b1)) => eq_expr(a1, b1),
        (Expr::App(a1, a2), Expr::App(b1, b2)) => eq_expr(a1, b1) && eq_expr(a2, b2),
        (Expr::Inv(a1), Expr::Inv(b1)) => eq_expr(a1, b1),
        (Expr::Comp(a1, a2), Expr::Comp(b1, b2)) => eq_expr(a1, b1) && eq_expr(a2, b2),
        (Expr::Tup(a1, a2), Expr::Tup(b1, b2)) => eq_expr(a1, b1) && eq_expr(a2, b2),
        (Expr::Lam(a1, a2), Expr::Lam(b1, b2)) => eq_expr(a1, b1) && eq_expr(a2, b2),
        (Expr::Subst(a1, a2, a3), Expr::Subst(b1, b2, b3)) => eq_expr(a1, b1) && eq_expr(a2, b2)
            && eq_expr(a3, b3),
        (Expr::IsConst(a1), Expr::IsConst(b1)) => eq_expr(a1, b1),
        (Expr::FId, Expr::FId) => true,
        (Expr::Dup, Expr::Dup) => true,
        (Expr::Fst, Expr::Fst) => true,
        (Expr::Snd, Expr::Snd) => true,
        (Expr::ParTup, Expr::ParTup) => true,
        (Expr::FunExt, Expr::FunExt) => true,
        (Expr::TypeU(x), Expr::TypeU(y)) => *x == *y,
        _ => false,
    }
}

} // verus!
