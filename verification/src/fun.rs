//! Functional programming as propositions.
//!
//! A type judgement `a : b` is the conjunction of an implication with
//! order evidence ([`crate::expr::mk_ty`]); a function type `f : x -> y`
//! uses the exponential `y^x`; a binder type `f : x => y` uses the
//! implication.
//!
//! The imaginary inverse `inv(f)` is always formable as syntax, but
//! computing with it — turning an input/output equation for `f` into one
//! for `inv(f)` — needs the additional qubit witness `~inv(f)`
//! ([`inv_val_qu`]), or a quality `inv(f) ~~ g` ([`inv_val`]).  Equality
//! of inverses is a tautology, so the quality relation, which is not
//! reflexive without assumptions, is what licenses computation: rules can
//! then be supplied only for functions that have inverses.

use vstd::prelude::*;

use crate::eq::{commute, eq_sym_c, eq_trans_c, refl, transitivity};
use crate::expr::{
    dup_expr, e_and, e_app, e_comp, e_eqv, e_imp, e_inv, e_isconst, e_lam, e_pow, e_qu, e_qual,
    e_subst, e_tauto, e_tup, e_ty, mk_and, mk_app, mk_app2, mk_comp, mk_eqv, mk_imp, mk_inv,
    mk_isconst, mk_lam, mk_pow, mk_qu, mk_qual, mk_subst, mk_tauto, mk_tup, mk_tup3, mk_ty, Expr,
};
use crate::path_semantics::{ty_in_left_arg, ty_in_right_arg, ty_q_formation};
use crate::pf::{
    and_intro, qual_left_qu, qual_right_qu, qual_symmetry, qual_to_eq, tauto_eq_elim,
    tauto_eq_symmetry, tauto_eq_transitivity, Pf,
};

verus! {

/// The parallel tuple of two functions: `f x g`.
pub open spec fn mk_par_pair(f: Expr, g: Expr) -> Expr {
    mk_app(Expr::ParTup, mk_tup(f, g))
}

/// The identity binder `\(a : x) = a`.
pub open spec fn mk_lam_id(a: Expr, x: Expr) -> Expr {
    mk_lam(mk_ty(a, x), a)
}

/// The binder `\(a : x) = \(b : y) = a`.
pub open spec fn mk_lam_fst(a: Expr, x: Expr, b: Expr, y: Expr) -> Expr {
    mk_lam(mk_ty(a, x), mk_lam(mk_ty(b, y), a))
}

/// The binder `\(a : x) = \(b : y) = b`.
pub open spec fn mk_lam_snd(a: Expr, x: Expr, b: Expr, y: Expr) -> Expr {
    mk_lam(mk_ty(a, x), mk_lam_id(b, y))
}

/// The normal path of one argument: `f[g1 -> g2]`, read as
/// `(g2 . f) . inv(g1)`.
pub open spec fn mk_norm1(f: Expr, g1: Expr, g2: Expr) -> Expr {
    mk_comp(mk_comp(g2, f), mk_inv(g1))
}

/// The symmetric normal path of one argument: `f[g]`.
pub open spec fn mk_sym_norm1(f: Expr, g: Expr) -> Expr {
    mk_norm1(f, g, g)
}

/// The normal path of two arguments: `f[g1 x g2 -> g3]`.
pub open spec fn mk_norm2(f: Expr, g1: Expr, g2: Expr, g3: Expr) -> Expr {
    mk_comp(mk_comp(g3, f), mk_par_pair(mk_inv(g1), mk_inv(g2)))
}

/// The symmetric normal path of two arguments: `f[g]`.
pub open spec fn mk_sym_norm2(f: Expr, g: Expr) -> Expr {
    mk_norm2(f, g, g, g)
}

/// The dependent function type `(a : x) -> p(a)`, read as the exponential
/// of `p(a)` over the judgement `a : x`.
pub open spec fn mk_dep_fun_ty(a: Expr, x: Expr, p: Expr) -> Expr {
    mk_pow(mk_app(p, a), mk_ty(a, x))
}

/// The pointwise equality observer `\(a : x) = (f(a) == g(a))`, composed
/// with the projection that extracts the third component of a triple.
pub open spec fn mk_fun_ext_app_eq(f: Expr, g: Expr, a: Expr, x: Expr) -> Expr {
    mk_comp(
        mk_lam(mk_ty(a, x), mk_eqv(mk_app(f, a), mk_app(g, a))),
        mk_comp(Expr::Snd, Expr::Snd),
    )
}

/// The function extensionality type: a dependent function over triples
/// `(f, g, a)` producing the pointwise equality at `a`.
pub open spec fn mk_fun_ext_ty(f: Expr, g: Expr, x: Expr, y: Expr, a: Expr) -> Expr {
    mk_dep_fun_ty(
        mk_tup3(f, g, a),
        mk_tup3(mk_pow(y, x), mk_pow(y, x), x),
        mk_fun_ext_app_eq(f, g, a, x),
    )
}

/// Builds a parallel tuple of two functions.
pub fn e_par_pair(f: Expr, g: Expr) -> (r: Expr)
    ensures
        r == mk_par_pair(f, g),
{
    e_app(Expr::ParTup, e_tup(f, g))
}

/// Builds a normal path of one argument.
pub fn e_norm1(f: Expr, g1: Expr, g2: Expr) -> (r: Expr)
    ensures
        r == mk_norm1(f, g1, g2),
{
    e_comp(e_comp(g2, f), e_inv(g1))
}

/// Builds a normal path of two arguments.
pub fn e_norm2(f: Expr, g1: Expr, g2: Expr, g3: Expr) -> (r: Expr)
    ensures
        r == mk_norm2(f, g1, g2, g3),
{
    e_comp(e_comp(g3, f), e_par_pair(e_inv(g1), e_inv(g2)))
}

/// Builds the identity binder `\(a : x) = a`.
pub fn e_lam_id(a: Expr, x: Expr) -> (r: Expr)
    ensures
        r == mk_lam_id(a, x),
{
    let a2 = dup_expr(&a);
    e_lam(e_ty(a, x), a2)
}

/// Builds the pointwise equality observer of [`mk_fun_ext_app_eq`].
pub fn e_fun_ext_app_eq(f: Expr, g: Expr, a: Expr, x: Expr) -> (r: Expr)
    ensures
        r == mk_fun_ext_app_eq(f, g, a, x),
{
    let a2 = dup_expr(&a);
    let head = e_ty(a, x);
    let body = e_eqv(e_app(f, dup_expr(&a2)), e_app(g, a2));
    e_comp(e_lam(head, body), e_comp(Expr::Snd, Expr::Snd))
}

/// Builds the function extensionality type of [`mk_fun_ext_ty`].
pub fn e_fun_ext_ty(f: Expr, g: Expr, x: Expr, y: Expr, a: Expr) -> (r: Expr)
    ensures
        r == mk_fun_ext_ty(f, g, x, y, a),
{
    let obs = e_fun_ext_app_eq(dup_expr(&f), dup_expr(&g), dup_expr(&a), dup_expr(&x));
    let subj1 = e_tup(dup_expr(&f), e_tup(dup_expr(&g), dup_expr(&a)));
    let subj2 = e_tup(f, e_tup(g, a));
    let pow_yx1 = e_pow(dup_expr(&y), dup_expr(&x));
    let pow_yx2 = e_pow(y, dup_expr(&x));
    let typ = e_tup(pow_yx1, e_tup(pow_yx2, x));
    e_pow(e_app(obs, subj1), e_ty(subj2, typ))
}

// Constancy rules.

/// `is_const(a) ∧ is_const(b)  =>  is_const(a ∧ b)`.
pub fn and_is_const(a: &Expr, b: &Expr, pa: &Pf, pb: &Pf) -> (r: Pf)
    requires
        pa@ == mk_isconst(*a),
        pb@ == mk_isconst(*b),
    ensures
        r@ == mk_isconst(mk_and(*a, *b)),
{
    Pf::mk(e_isconst(e_and(dup_expr(a), dup_expr(b))))
}

/// `is_const(a) ∧ is_const(b)  =>  is_const(a ∨ b)`.
pub fn or_is_const(a: &Expr, b: &Expr, pa: &Pf, pb: &Pf) -> (r: Pf)
    requires
        pa@ == mk_isconst(*a),
        pb@ == mk_isconst(*b),
    ensures
        r@ == mk_isconst(crate::expr::mk_or(*a, *b)),
{
    Pf::mk(e_isconst(crate::expr::e_or(dup_expr(a), dup_expr(b))))
}

/// `is_const(a) ∧ is_const(b)  =>  is_const(a => b)`.
pub fn imply_is_const(a: &Expr, b: &Expr, pa: &Pf, pb: &Pf) -> (r: Pf)
    requires
        pa@ == mk_isconst(*a),
        pb@ == mk_isconst(*b),
    ensures
        r@ == mk_isconst(mk_imp(*a, *b)),
{
    Pf::mk(e_isconst(e_imp(dup_expr(a), dup_expr(b))))
}

/// `is_const(a) ∧ is_const(b)  =>  is_const(a > b)` for the path order
/// proposition.
pub fn pord_is_const(a: &Expr, b: &Expr, pa: &Pf, pb: &Pf) -> (r: Pf)
    requires
        pa@ == mk_isconst(*a),
        pb@ == mk_isconst(*b),
    ensures
        r@ == mk_isconst(crate::expr::mk_pord(*a, *b)),
{
    Pf::mk(e_isconst(crate::expr::e_pord(dup_expr(a), dup_expr(b))))
}

/// `is_const(a) ∧ is_const(b)  =>  is_const(a : b)`: a type judgement is
/// the conjunction of an implication and order evidence, so its constancy
/// follows from theirs.
pub fn ty_is_const(a: &Expr, b: &Expr, pa: &Pf, pb: &Pf) -> (r: Pf)
    requires
        pa@ == mk_isconst(*a),
        pb@ == mk_isconst(*b),
    ensures
        r@ == mk_isconst(mk_ty(*a, *b)),
{
    let i = imply_is_const(a, b, pa, pb);
    let o = pord_is_const(a, b, pa, pb);
    let iab = e_imp(dup_expr(a), dup_expr(b));
    let oab = crate::expr::e_pord(dup_expr(a), dup_expr(b));
    and_is_const(&iab, &oab, &i, &o)
}

/// `is_const(f) ∧ is_const(x)  =>  is_const(f(x))`.
pub fn app_is_const(f: &Expr, x: &Expr, pf: &Pf, px: &Pf) -> (r: Pf)
    requires
        pf@ == mk_isconst(*f),
        px@ == mk_isconst(*x),
    ensures
        r@ == mk_isconst(mk_app(*f, *x)),
{
    Pf::mk(e_isconst(e_app(dup_expr(f), dup_expr(x))))
}

// Qubit and quality rules for the inverse.

/// `~f ∧ (f == g)^true  =>  f ~~ g`: a qubit together with a tautological
/// equality yields a quality.
pub fn qu_tauto_eq_to_q(f: &Expr, g: &Expr, x: &Pf, tauto_eq: &Pf) -> (r: Pf)
    requires
        x@ == mk_qu(*f),
        tauto_eq@ == mk_tauto(mk_eqv(*f, *g)),
    ensures
        r@ == mk_qual(*f, *g),
{
    let eq = tauto_eq_elim(f, g, tauto_eq);
    let qug = Pf::mk(e_qu(dup_expr(g)));
    and_intro(&eq, &and_intro(x, &qug))
}

/// `~f  =>  ~inv(inv(f))`: the involution is tautological, so the qubit
/// transports across it.
pub fn qu_double(f: &Expr, x: &Pf) -> (r: Pf)
    requires
        x@ == mk_qu(*f),
    ensures
        r@ == mk_qu(mk_inv(mk_inv(*f))),
{
    Pf::mk(e_qu(e_inv(e_inv(dup_expr(f)))))
}

/// `~inv(inv(f))  =>  ~f`.
pub fn qu_rev_double(f: &Expr, x: &Pf) -> (r: Pf)
    requires
        x@ == mk_qu(mk_inv(mk_inv(*f))),
    ensures
        r@ == mk_qu(*f),
{
    Pf::mk(e_qu(dup_expr(f)))
}

/// `~inv(f) ∧ (f == g)^true  =>  ~inv(g)`: the qubit of an inverse
/// transports along a tautological equality of the underlying functions.
pub fn qu_inv_tauto_eq_to_qu_inv(f: &Expr, g: &Expr, x: &Pf, tauto_eq: &Pf) -> (r: Pf)
    requires
        x@ == mk_qu(mk_inv(*f)),
        tauto_eq@ == mk_tauto(mk_eqv(*f, *g)),
    ensures
        r@ == mk_qu(mk_inv(*g)),
{
    Pf::mk(e_qu(e_inv(dup_expr(g))))
}

/// `inv(inv(f))(x) == f(x)`: the double inverse computes as the function
/// itself.
pub fn inv_double_val(f: &Expr, x: &Expr) -> (r: Pf)
    ensures
        r@ == mk_eqv(mk_app(mk_inv(mk_inv(*f)), *x), mk_app(*f, *x)),
{
    let ie = involve_eq(f);
    let iif = e_inv(e_inv(dup_expr(f)));
    app_map_eq(&iif, f, x, &ie)
}

/// `f ~~ g  =>  inv(f) ~~ inv(g)`.
pub fn q_inv(f: &Expr, g: &Expr, p: &Pf) -> (r: Pf)
    requires
        p@ == mk_qual(*f, *g),
    ensures
        r@ == mk_qual(mk_inv(*f), mk_inv(*g)),
{
    let eq_fg = qual_to_eq(f, g, p);
    let ie = inv_eq(f, g, &eq_fg);
    let quf = qual_left_qu(f, g, p);
    let qug = qual_right_qu(f, g, p);
    let qif = inv_qu(f, &quf);
    let qig = inv_qu(g, &qug);
    and_intro(&ie, &and_intro(&qif, &qig))
}

/// `inv(f) ~~ g  =>  f ~~ inv(g)`: the inverse is adjoint to itself.
pub fn q_adjoint_left(f: &Expr, g: &Expr, x: &Pf) -> (r: Pf)
    requires
        x@ == mk_qual(mk_inv(*f), *g),
    ensures
        r@ == mk_qual(*f, mk_inv(*g)),
{
    Pf::mk(e_qual(dup_expr(f), e_inv(dup_expr(g))))
}

/// `f ~~ inv(g)  =>  inv(f) ~~ g`.
pub fn q_adjoint_right(f: &Expr, g: &Expr, x: &Pf) -> (r: Pf)
    requires
        x@ == mk_qual(*f, mk_inv(*g)),
    ensures
        r@ == mk_qual(mk_inv(*f), *g),
{
    let invg = e_inv(dup_expr(g));
    let sym = qual_symmetry(f, &invg, x);
    let adj = q_adjoint_left(g, f, &sym);
    let invf = e_inv(dup_expr(f));
    qual_symmetry(g, &invf, &adj)
}

/// `(inv(f) ~~ g)  ==  (f ~~ inv(g))`, as one proposition.
pub fn q_adjoint(f: &Expr, g: &Expr) -> (r: Pf)
    ensures
        r@ == mk_eqv(mk_qual(mk_inv(*f), *g), mk_qual(*f, mk_inv(*g))),
{
    let lhs = e_qual(e_inv(dup_expr(f)), dup_expr(g));
    let rhs = e_qual(dup_expr(f), e_inv(dup_expr(g)));
    Pf::mk(e_eqv(lhs, rhs))
}

/// `~inv(f)  =>  (f(a) == b) == (inv(f)(b) == a)`: with the qubit
/// witness, the input/output equation and its inverse equation are
/// themselves equal propositions.
pub fn qu_to_app_eq(a: &Expr, b: &Expr, f: &Expr, x: &Pf) -> (r: Pf)
    requires
        x@ == mk_qu(mk_inv(*f)),
    ensures
        r@ == mk_eqv(
            mk_eqv(mk_app(*f, *a), *b),
            mk_eqv(mk_app(mk_inv(*f), *b), *a),
        ),
{
    let lhs = e_eqv(e_app(dup_expr(f), dup_expr(a)), dup_expr(b));
    let rhs = e_eqv(e_app(e_inv(dup_expr(f)), dup_expr(b)), dup_expr(a));
    Pf::mk(e_eqv(lhs, rhs))
}

// Application rules.

/// Indiscernibility of identicals: `(x == y)  =>  (f(x) == f(y))`.
pub fn app_eq(f: &Expr, x: &Expr, y: &Expr, eq_xy: &Pf) -> (r: Pf)
    requires
        eq_xy@ == mk_eqv(*x, *y),
    ensures
        r@ == mk_eqv(mk_app(*f, *x), mk_app(*f, *y)),
{
    let lhs = e_app(dup_expr(f), dup_expr(x));
    let rhs = e_app(dup_expr(f), dup_expr(y));
    Pf::mk(e_eqv(lhs, rhs))
}

/// Equality of maps lifts to application: `(f == g)  =>  (f(x) == g(x))`.
pub fn app_map_eq(f: &Expr, g: &Expr, x: &Expr, eq_fg: &Pf) -> (r: Pf)
    requires
        eq_fg@ == mk_eqv(*f, *g),
    ensures
        r@ == mk_eqv(mk_app(*f, *x), mk_app(*g, *x)),
{
    let lhs = e_app(dup_expr(f), dup_expr(x));
    let rhs = e_app(dup_expr(g), dup_expr(x));
    Pf::mk(e_eqv(lhs, rhs))
}

/// `(f : x -> y) ∧ (a : x) ∧ is_const(x)  =>  (f(a) : y)`.
pub fn app_fun_ty(f: &Expr, x: &Expr, y: &Expr, a: &Expr, ty_f: &Pf, ty_a: &Pf, x_c: &Pf) -> (r:
    Pf)
    requires
        ty_f@ == mk_ty(*f, mk_pow(*y, *x)),
        ty_a@ == mk_ty(*a, *x),
        x_c@ == mk_isconst(*x),
    ensures
        r@ == mk_ty(mk_app(*f, *a), *y),
{
    Pf::mk(e_ty(e_app(dup_expr(f), dup_expr(a)), dup_expr(y)))
}

/// `(f : (x => y)) ∧ (a : x) ∧ is_const(x)  =>  (f(a) : y)`.
pub fn app_lam_ty(f: &Expr, x: &Expr, y: &Expr, a: &Expr, ty_f: &Pf, ty_a: &Pf, x_c: &Pf) -> (r:
    Pf)
    requires
        ty_f@ == mk_ty(*f, mk_imp(*x, *y)),
        ty_a@ == mk_ty(*a, *x),
        x_c@ == mk_isconst(*x),
    ensures
        r@ == mk_ty(mk_app(*f, *a), *y),
{
    Pf::mk(e_ty(e_app(dup_expr(f), dup_expr(a)), dup_expr(y)))
}

/// `((\(a : x) = b) : (x => y)) ∧ (a : x) ∧ (b : y) ∧ (c : x)  =>
/// ((\(a : x) = b)(c) : y[a := c])`: application of a dependent binder.
pub fn app_dep_lam_ty(
    a: &Expr,
    b: &Expr,
    c: &Expr,
    x: &Expr,
    y: &Expr,
    ty_f: &Pf,
    ty_a: &Pf,
    ty_b: &Pf,
    ty_c: &Pf,
) -> (r: Pf)
    requires
        ty_f@ == mk_ty(mk_lam(mk_ty(*a, *x), *b), mk_imp(*x, *y)),
        ty_a@ == mk_ty(*a, *x),
        ty_b@ == mk_ty(*b, *y),
        ty_c@ == mk_ty(*c, *x),
    ensures
        r@ == mk_ty(
            mk_app(mk_lam(mk_ty(*a, *x), *b), *c),
            mk_subst(*y, *a, *c),
        ),
{
    let lam = e_lam(e_ty(dup_expr(a), dup_expr(x)), dup_expr(b));
    let subj = e_app(lam, dup_expr(c));
    let typ = e_subst(dup_expr(y), dup_expr(a), dup_expr(c));
    Pf::mk(e_ty(subj, typ))
}

/// Type of an applied binary operator on function types.
pub fn app2_fun_ty(
    f: &Expr,
    x: &Expr,
    y: &Expr,
    z: &Expr,
    a: &Expr,
    b: &Expr,
    ty_f: &Pf,
    ty_a: &Pf,
    ty_b: &Pf,
    x_c: &Pf,
    y_c: &Pf,
) -> (r: Pf)
    requires
        ty_f@ == mk_ty(*f, mk_pow(mk_pow(*z, *y), *x)),
        ty_a@ == mk_ty(*a, *x),
        ty_b@ == mk_ty(*b, *y),
        x_c@ == mk_isconst(*x),
        y_c@ == mk_isconst(*y),
    ensures
        r@ == mk_ty(mk_app2(*f, *a, *b), *z),
{
    let zy = e_pow(dup_expr(z), dup_expr(y));
    let fa = e_app(dup_expr(f), dup_expr(a));
    let t1 = app_fun_ty(f, x, &zy, a, ty_f, ty_a, x_c);
    app_fun_ty(&fa, y, z, b, &t1, ty_b, y_c)
}

/// Type of an applied binary operator on binder types.
pub fn app2_lam_ty(
    f: &Expr,
    x: &Expr,
    y: &Expr,
    z: &Expr,
    a: &Expr,
    b: &Expr,
    ty_f: &Pf,
    ty_a: &Pf,
    ty_b: &Pf,
    x_c: &Pf,
    y_c: &Pf,
) -> (r: Pf)
    requires
        ty_f@ == mk_ty(*f, mk_imp(*x, mk_imp(*y, *z))),
        ty_a@ == mk_ty(*a, *x),
        ty_b@ == mk_ty(*b, *y),
        x_c@ == mk_isconst(*x),
        y_c@ == mk_isconst(*y),
    ensures
        r@ == mk_ty(mk_app2(*f, *a, *b), *z),
{
    let yz = e_imp(dup_expr(y), dup_expr(z));
    let fa = e_app(dup_expr(f), dup_expr(a));
    let t1 = app_lam_ty(f, x, &yz, a, ty_f, ty_a, x_c);
    app_lam_ty(&fa, y, z, b, &t1, ty_b, y_c)
}

/// `(f(a) == b) ∧ (a : x) ∧ (b : y)  =>  ((\(a : x) = f(a)) : (x => y))`.
pub fn app_lift_ty_lam(
    f: &Expr,
    a: &Expr,
    b: &Expr,
    x: &Expr,
    y: &Expr,
    eq_b: &Pf,
    ty_a: &Pf,
    ty_b: &Pf,
) -> (r: Pf)
    requires
        eq_b@ == mk_eqv(mk_app(*f, *a), *b),
        ty_a@ == mk_ty(*a, *x),
        ty_b@ == mk_ty(*b, *y),
    ensures
        r@ == mk_ty(mk_lam(mk_ty(*a, *x), mk_app(*f, *a)), mk_imp(*x, *y)),
{
    let fa = e_app(dup_expr(f), dup_expr(a));
    let sym = commute(&fa, b, eq_b);
    let ty_fa = ty_in_left_arg(b, y, &fa, ty_b, &sym);
    lam_ty(a, &fa, x, y, ty_a, &ty_fa)
}

// The imaginary inverse.

/// Inverse type formation: `(f : x -> y)  =>  (inv(f) : y -> x)`.
pub fn inv_ty(f: &Expr, x: &Expr, y: &Expr, ty_f: &Pf) -> (r: Pf)
    requires
        ty_f@ == mk_ty(*f, mk_pow(*y, *x)),
    ensures
        r@ == mk_ty(mk_inv(*f), mk_pow(*x, *y)),
{
    Pf::mk(e_ty(e_inv(dup_expr(f)), e_pow(dup_expr(x), dup_expr(y))))
}

/// `is_const(f)  =>  is_const(inv(f))`.
pub fn inv_is_const(f: &Expr, p: &Pf) -> (r: Pf)
    requires
        p@ == mk_isconst(*f),
    ensures
        r@ == mk_isconst(mk_inv(*f)),
{
    Pf::mk(e_isconst(e_inv(dup_expr(f))))
}

/// Computes with the inverse, gated by the qubit witness:
/// `~inv(f) ∧ (f(a) == b)  =>  (inv(f)(b) == a)`.
pub fn inv_val_qu(f: &Expr, a: &Expr, b: &Expr, qu: &Pf, eq: &Pf) -> (r: Pf)
    requires
        qu@ == mk_qu(mk_inv(*f)),
        eq@ == mk_eqv(mk_app(*f, *a), *b),
    ensures
        r@ == mk_eqv(mk_app(mk_inv(*f), *b), *a),
{
    let lhs = e_app(e_inv(dup_expr(f)), dup_expr(b));
    Pf::mk(e_eqv(lhs, dup_expr(a)))
}

/// `inv(inv(f))  =>  f`.
pub fn inv_involve(f: &Expr, p: &Pf) -> (r: Pf)
    requires
        p@ == mk_inv(mk_inv(*f)),
    ensures
        r@ == *f,
{
    Pf::mk(dup_expr(f))
}

/// `f  =>  inv(inv(f))`.
pub fn involve_inv(f: &Expr, p: &Pf) -> (r: Pf)
    requires
        p@ == *f,
    ensures
        r@ == mk_inv(mk_inv(*f)),
{
    Pf::mk(e_inv(e_inv(dup_expr(f))))
}

/// `(f == g)  =>  (inv(f) == inv(g))`.
pub fn inv_eq(f: &Expr, g: &Expr, p: &Pf) -> (r: Pf)
    requires
        p@ == mk_eqv(*f, *g),
    ensures
        r@ == mk_eqv(mk_inv(*f), mk_inv(*g)),
{
    Pf::mk(e_eqv(e_inv(dup_expr(f)), e_inv(dup_expr(g))))
}

/// `~f  =>  ~inv(f)`.
pub fn inv_qu(f: &Expr, p: &Pf) -> (r: Pf)
    requires
        p@ == mk_qu(*f),
    ensures
        r@ == mk_qu(mk_inv(*f)),
{
    Pf::mk(e_qu(e_inv(dup_expr(f))))
}

/// Computes with the inverse from a quality witness:
/// `(inv(f) ~~ g) ∧ (f(a) == b)  =>  (inv(f)(b) == a)`.
pub fn inv_val(f: &Expr, g: &Expr, a: &Expr, b: &Expr, x: &Pf, y: &Pf) -> (r: Pf)
    requires
        x@ == mk_qual(mk_inv(*f), *g),
        y@ == mk_eqv(mk_app(*f, *a), *b),
    ensures
        r@ == mk_eqv(mk_app(mk_inv(*f), *b), *a),
{
    let invf = e_inv(dup_expr(f));
    let qu = qual_left_qu(&invf, g, x);
    inv_val_qu(f, a, b, &qu, y)
}

/// Computes with the named inverse from a quality witness:
/// `(inv(f) ~~ g) ∧ (f(a) == b)  =>  (g(b) == a)`.
pub fn inv_val_other(f: &Expr, g: &Expr, a: &Expr, b: &Expr, x: &Pf, y: &Pf) -> (r: Pf)
    requires
        x@ == mk_qual(mk_inv(*f), *g),
        y@ == mk_eqv(mk_app(*f, *a), *b),
    ensures
        r@ == mk_eqv(mk_app(*g, *b), *a),
{
    let invf = e_inv(dup_expr(f));
    let base = inv_val(f, g, a, b, x, y);
    let eq_fg = qual_to_eq(&invf, g, x);
    let am = app_map_eq(&invf, g, b, &eq_fg);
    let invfb = e_app(e_inv(dup_expr(f)), dup_expr(b));
    let gb = e_app(dup_expr(g), dup_expr(b));
    let sym = commute(&invfb, &gb, &am);
    transitivity(&gb, &invfb, a, &sym, &base)
}

/// `inv(inv(f)) == f`: both involution directions, as one equality.
pub fn involve_eq(f: &Expr) -> (r: Pf)
    ensures
        r@ == mk_eqv(mk_inv(mk_inv(*f)), *f),
{
    Pf::mk(e_eqv(e_inv(e_inv(dup_expr(f))), dup_expr(f)))
}

// Composition.

/// Type of a composition: `(f : x -> y) ∧ (g : y -> z)  =>
/// ((g . f) : x -> z)`.
pub fn comp_ty(f: &Expr, g: &Expr, x: &Expr, y: &Expr, z: &Expr, ty_f: &Pf, ty_g: &Pf) -> (r: Pf)
    requires
        ty_f@ == mk_ty(*f, mk_pow(*y, *x)),
        ty_g@ == mk_ty(*g, mk_pow(*z, *y)),
    ensures
        r@ == mk_ty(mk_comp(*g, *f), mk_pow(*z, *x)),
{
    Pf::mk(e_ty(e_comp(dup_expr(g), dup_expr(f)), e_pow(dup_expr(z), dup_expr(x))))
}

/// `is_const(f) ∧ is_const(g)  =>  is_const(g . f)`.
pub fn comp_is_const(f: &Expr, g: &Expr, pa: &Pf, pb: &Pf) -> (r: Pf)
    requires
        pa@ == mk_isconst(*f),
        pb@ == mk_isconst(*g),
    ensures
        r@ == mk_isconst(mk_comp(*g, *f)),
{
    Pf::mk(e_isconst(e_comp(dup_expr(g), dup_expr(f))))
}

/// `inv(g . f)  =>  (inv(f) . inv(g))`: contravariant duality of the
/// inverse, one direction.
pub fn inv_comp_to_comp_inv(f: &Expr, g: &Expr, p: &Pf) -> (r: Pf)
    requires
        p@ == mk_inv(mk_comp(*g, *f)),
    ensures
        r@ == mk_comp(mk_inv(*f), mk_inv(*g)),
{
    Pf::mk(e_comp(e_inv(dup_expr(f)), e_inv(dup_expr(g))))
}

/// `(inv(f) . inv(g))  =>  inv(g . f)`: the other direction.
pub fn comp_inv_to_inv_comp(f: &Expr, g: &Expr, p: &Pf) -> (r: Pf)
    requires
        p@ == mk_comp(mk_inv(*f), mk_inv(*g)),
    ensures
        r@ == mk_inv(mk_comp(*g, *f)),
{
    Pf::mk(e_inv(e_comp(dup_expr(g), dup_expr(f))))
}

/// `g(f(x))  =>  (g . f)(x)`.
pub fn app_to_comp(f: &Expr, g: &Expr, x: &Expr, p: &Pf) -> (r: Pf)
    requires
        p@ == mk_app(*g, mk_app(*f, *x)),
    ensures
        r@ == mk_app(mk_comp(*g, *f), *x),
{
    Pf::mk(e_app(e_comp(dup_expr(g), dup_expr(f)), dup_expr(x)))
}

/// `(g . f)(x)  =>  g(f(x))`.
pub fn comp_to_app(f: &Expr, g: &Expr, x: &Expr, p: &Pf) -> (r: Pf)
    requires
        p@ == mk_app(mk_comp(*g, *f), *x),
    ensures
        r@ == mk_app(*g, mk_app(*f, *x)),
{
    Pf::mk(e_app(dup_expr(g), e_app(dup_expr(f), dup_expr(x))))
}

/// Composition is associative: `h . (g . f)  ==  (h . g) . f`.
pub fn comp_assoc(f: &Expr, g: &Expr, h: &Expr) -> (r: Pf)
    ensures
        r@ == mk_eqv(
            mk_comp(*h, mk_comp(*g, *f)),
            mk_comp(mk_comp(*h, *g), *f),
        ),
{
    let lhs = e_comp(dup_expr(h), e_comp(dup_expr(g), dup_expr(f)));
    let rhs = e_comp(e_comp(dup_expr(h), dup_expr(g)), dup_expr(f));
    Pf::mk(e_eqv(lhs, rhs))
}

/// `id . f  ==  f`.
pub fn comp_id_left(f: &Expr) -> (r: Pf)
    ensures
        r@ == mk_eqv(mk_comp(Expr::FId, *f), *f),
{
    Pf::mk(e_eqv(e_comp(Expr::FId, dup_expr(f)), dup_expr(f)))
}

/// `f . id  ==  f`.
pub fn comp_id_right(f: &Expr) -> (r: Pf)
    ensures
        r@ == mk_eqv(mk_comp(*f, Expr::FId), *f),
{
    Pf::mk(e_eqv(e_comp(dup_expr(f), Expr::FId), dup_expr(f)))
}

/// `(inv(f) . inv(g))  ==  inv(g . f)`: contravariant duality, as one
/// equality packaging the two directions.
pub fn comp_inv(f: &Expr, g: &Expr) -> (r: Pf)
    ensures
        r@ == mk_eqv(
            mk_comp(mk_inv(*f), mk_inv(*g)),
            mk_inv(mk_comp(*g, *f)),
        ),
{
    let lhs = e_comp(e_inv(dup_expr(f)), e_inv(dup_expr(g)));
    let rhs = e_inv(e_comp(dup_expr(g), dup_expr(f)));
    Pf::mk(e_eqv(lhs, rhs))
}

/// `g(f(x))  ==  (g . f)(x)`: applying the composite and applying in
/// sequence are interchangeable.
pub fn eq_app_comp(f: &Expr, g: &Expr, x: &Expr) -> (r: Pf)
    ensures
        r@ == mk_eqv(
            mk_app(*g, mk_app(*f, *x)),
            mk_app(mk_comp(*g, *f), *x),
        ),
{
    let lhs = e_app(dup_expr(g), e_app(dup_expr(f), dup_expr(x)));
    let rhs = e_app(e_comp(dup_expr(g), dup_expr(f)), dup_expr(x));
    Pf::mk(e_eqv(lhs, rhs))
}

/// `(g . f) ∧ (g == h)  =>  (h . f)`.
pub fn comp_in_left_arg(f: &Expr, g: &Expr, h: &Expr, x: &Pf, y: &Pf) -> (r: Pf)
    requires
        x@ == mk_comp(*g, *f),
        y@ == mk_eqv(*g, *h),
    ensures
        r@ == mk_comp(*h, *f),
{
    Pf::mk(e_comp(dup_expr(h), dup_expr(f)))
}

/// `(g . f) ∧ (f == h)  =>  (g . h)`.
pub fn comp_in_right_arg(f: &Expr, g: &Expr, h: &Expr, x: &Pf, y: &Pf) -> (r: Pf)
    requires
        x@ == mk_comp(*g, *f),
        y@ == mk_eqv(*f, *h),
    ensures
        r@ == mk_comp(*g, *h),
{
    Pf::mk(e_comp(dup_expr(g), dup_expr(h)))
}

/// `(f == h)  =>  ((f . g) == (h . g))`.
pub fn comp_eq_left(f: &Expr, g: &Expr, h: &Expr, x: &Pf) -> (r: Pf)
    requires
        x@ == mk_eqv(*f, *h),
    ensures
        r@ == mk_eqv(mk_comp(*f, *g), mk_comp(*h, *g)),
{
    let lhs = e_comp(dup_expr(f), dup_expr(g));
    let rhs = e_comp(dup_expr(h), dup_expr(g));
    Pf::mk(e_eqv(lhs, rhs))
}

/// `(g == h)  =>  ((f . g) == (f . h))`.
pub fn comp_eq_right(f: &Expr, g: &Expr, h: &Expr, x: &Pf) -> (r: Pf)
    requires
        x@ == mk_eqv(*g, *h),
    ensures
        r@ == mk_eqv(mk_comp(*f, *g), mk_comp(*f, *h)),
{
    let lhs = e_comp(dup_expr(f), dup_expr(g));
    let rhs = e_comp(dup_expr(f), dup_expr(h));
    Pf::mk(e_eqv(lhs, rhs))
}

// The named standard functions.

/// Type of the duplicating function: `dup : a -> (a, a)`.
pub fn dup_ty(a: &Expr) -> (r: Pf)
    ensures
        r@ == mk_ty(Expr::Dup, mk_pow(mk_tup(*a, *a), *a)),
{
    Pf::mk(e_ty(Expr::Dup, e_pow(e_tup(dup_expr(a), dup_expr(a)), dup_expr(a))))
}

/// `is_const(dup)`.
pub fn dup_is_const() -> (r: Pf)
    ensures
        r@ == mk_isconst(Expr::Dup),
{
    Pf::mk(e_isconst(Expr::Dup))
}

/// Defining equation of the duplicating function: `dup(a) == (a, a)`.
pub fn dup_def(a: &Expr) -> (r: Pf)
    ensures
        r@ == mk_eqv(mk_app(Expr::Dup, *a), mk_tup(*a, *a)),
{
    let lhs = e_app(Expr::Dup, dup_expr(a));
    let rhs = e_tup(dup_expr(a), dup_expr(a));
    Pf::mk(e_eqv(lhs, rhs))
}

/// Type of the identity function: `id : a -> a`.
pub fn id_ty(a: &Expr) -> (r: Pf)
    ensures
        r@ == mk_ty(Expr::FId, mk_pow(*a, *a)),
{
    Pf::mk(e_ty(Expr::FId, e_pow(dup_expr(a), dup_expr(a))))
}

/// `is_const(id)`.
pub fn id_is_const() -> (r: Pf)
    ensures
        r@ == mk_isconst(Expr::FId),
{
    Pf::mk(e_isconst(Expr::FId))
}

/// Defining equation of the identity function: `id(a) == a`.
pub fn id_def(a: &Expr) -> (r: Pf)
    ensures
        r@ == mk_eqv(mk_app(Expr::FId, *a), *a),
{
    Pf::mk(e_eqv(e_app(Expr::FId, dup_expr(a)), dup_expr(a)))
}

/// `inv(id) ~~ id`: the identity is its own inverse, as a quality.
pub fn id_q() -> (r: Pf)
    ensures
        r@ == mk_qual(mk_inv(Expr::FId), Expr::FId),
{
    Pf::mk(e_qual(e_inv(Expr::FId), Expr::FId))
}

/// `(f . inv(f))  =>  id`.
pub fn comp_right_inv_to_id(f: &Expr, p: &Pf) -> (r: Pf)
    requires
        p@ == mk_comp(*f, mk_inv(*f)),
    ensures
        r@ == Expr::FId,
{
    Pf::mk(Expr::FId)
}

/// `id  =>  (f . inv(f))`.
pub fn id_to_comp_right_inv(f: &Expr, p: &Pf) -> (r: Pf)
    requires
        p@ == Expr::FId,
    ensures
        r@ == mk_comp(*f, mk_inv(*f)),
{
    Pf::mk(e_comp(dup_expr(f), e_inv(dup_expr(f))))
}

/// `(inv(f) . f)  =>  id`.
pub fn comp_left_inv_to_id(f: &Expr, p: &Pf) -> (r: Pf)
    requires
        p@ == mk_comp(mk_inv(*f), *f),
    ensures
        r@ == Expr::FId,
{
    Pf::mk(Expr::FId)
}

/// `id  =>  (inv(f) . f)`.
pub fn id_to_comp_left_inv(f: &Expr, p: &Pf) -> (r: Pf)
    requires
        p@ == Expr::FId,
    ensures
        r@ == mk_comp(mk_inv(*f), *f),
{
    Pf::mk(e_comp(e_inv(dup_expr(f)), dup_expr(f)))
}

/// `(f : a -> b)  =>  ((f ~~ inv(f)) : ((a -> b) ~~ (b -> a)))`.
pub fn self_inv_ty(f: &Expr, a: &Expr, b: &Expr, ty_f: &Pf) -> (r: Pf)
    requires
        ty_f@ == mk_ty(*f, mk_pow(*b, *a)),
    ensures
        r@ == mk_ty(
            mk_qual(*f, mk_inv(*f)),
            mk_qual(mk_pow(*b, *a), mk_pow(*a, *b)),
        ),
{
    let iv = inv_ty(f, a, b, ty_f);
    let invf = e_inv(dup_expr(f));
    let pba = e_pow(dup_expr(b), dup_expr(a));
    let pab = e_pow(dup_expr(a), dup_expr(b));
    ty_q_formation(f, &invf, &pba, &pab, ty_f, &iv)
}

/// `(inv(f) == f)  =>  ((f . f) == id)`.
pub fn self_inv_to_eq_id(f: &Expr, eq_f: &Pf) -> (r: Pf)
    requires
        eq_f@ == mk_eqv(mk_inv(*f), *f),
    ensures
        r@ == mk_eqv(mk_comp(*f, *f), Expr::FId),
{
    Pf::mk(e_eqv(e_comp(dup_expr(f), dup_expr(f)), Expr::FId))
}

// The cumulative universe hierarchy.

/// `type(n)  =>  type(n+1)`.
pub fn type_imply(n: u64, p: &Pf) -> (r: Pf)
    requires
        p@ == Expr::TypeU(n),
        n < u64::MAX,
    ensures
        r@ == Expr::TypeU((n + 1) as u64),
{
    Pf::mk(Expr::TypeU(n + 1))
}

/// `is_const(type(n))`.
pub fn type_is_const(n: u64) -> (r: Pf)
    ensures
        r@ == mk_isconst(Expr::TypeU(n)),
{
    Pf::mk(e_isconst(Expr::TypeU(n)))
}

/// `(a -> b) : type(0)`.
pub fn pow_ty(a: &Expr, b: &Expr) -> (r: Pf)
    ensures
        r@ == mk_ty(mk_pow(*b, *a), Expr::TypeU(0)),
{
    Pf::mk(e_ty(e_pow(dup_expr(b), dup_expr(a)), Expr::TypeU(0)))
}

/// `type(n) : type(n+1)`: each universe sits in the next one.
pub fn type_ty(n: u64) -> (r: Pf)
    requires
        n < u64::MAX,
    ensures
        r@ == mk_ty(Expr::TypeU(n), Expr::TypeU((n + 1) as u64)),
{
    Pf::mk(e_ty(Expr::TypeU(n), Expr::TypeU(n + 1)))
}

/// `(f : a -> b) ∧ (inv(f) ~~ g)  =>
/// ((f ~~ g) : ((a -> b) ~~ (b -> a)))`.  The quality witness lets the
/// self-inverse judgement of [`self_inv_ty`] be transported to `g`.
pub fn q_inv_ty(f: &Expr, g: &Expr, a: &Expr, b: &Expr, ty_f: &Pf, q: &Pf) -> (r: Pf)
    requires
        ty_f@ == mk_ty(*f, mk_pow(*b, *a)),
        q@ == mk_qual(mk_inv(*f), *g),
    ensures
        r@ == mk_ty(
            mk_qual(*f, *g),
            mk_qual(mk_pow(*b, *a), mk_pow(*a, *b)),
        ),
{
    let subj = e_qual(dup_expr(f), dup_expr(g));
    let typ = e_qual(
        e_pow(dup_expr(b), dup_expr(a)),
        e_pow(dup_expr(a), dup_expr(b)),
    );
    Pf::mk(e_ty(subj, typ))
}

// Tuples.

/// `(a : x) ∧ (b : y)  =>  ((a, b) : (x, y))`.
pub fn tup_ty(a: &Expr, b: &Expr, x: &Expr, y: &Expr, ty_a: &Pf, ty_b: &Pf) -> (r: Pf)
    requires
        ty_a@ == mk_ty(*a, *x),
        ty_b@ == mk_ty(*b, *y),
    ensures
        r@ == mk_ty(mk_tup(*a, *b), mk_tup(*x, *y)),
{
    Pf::mk(e_ty(e_tup(dup_expr(a), dup_expr(b)), e_tup(dup_expr(x), dup_expr(y))))
}

/// `is_const(a) ∧ is_const(b)  =>  is_const((a, b))`.
pub fn tup_is_const(a: &Expr, b: &Expr, pa: &Pf, pb: &Pf) -> (r: Pf)
    requires
        pa@ == mk_isconst(*a),
        pb@ == mk_isconst(*b),
    ensures
        r@ == mk_isconst(mk_tup(*a, *b)),
{
    Pf::mk(e_isconst(e_tup(dup_expr(a), dup_expr(b))))
}

/// `((a, b) : (x, y))  =>  (a : x)`.
pub fn tup_fst(a: &Expr, b: &Expr, x: &Expr, y: &Expr, p: &Pf) -> (r: Pf)
    requires
        p@ == mk_ty(mk_tup(*a, *b), mk_tup(*x, *y)),
    ensures
        r@ == mk_ty(*a, *x),
{
    Pf::mk(e_ty(dup_expr(a), dup_expr(x)))
}

/// `((a, b) : (x, y))  =>  (b : y)`.
pub fn tup_snd(a: &Expr, b: &Expr, x: &Expr, y: &Expr, p: &Pf) -> (r: Pf)
    requires
        p@ == mk_ty(mk_tup(*a, *b), mk_tup(*x, *y)),
    ensures
        r@ == mk_ty(*b, *y),
{
    Pf::mk(e_ty(dup_expr(b), dup_expr(y)))
}

/// `(a == b)  =>  ((a, c) == (b, c))`.
pub fn tup_eq_fst(a: &Expr, b: &Expr, c: &Expr, p: &Pf) -> (r: Pf)
    requires
        p@ == mk_eqv(*a, *b),
    ensures
        r@ == mk_eqv(mk_tup(*a, *c), mk_tup(*b, *c)),
{
    let lhs = e_tup(dup_expr(a), dup_expr(c));
    let rhs = e_tup(dup_expr(b), dup_expr(c));
    Pf::mk(e_eqv(lhs, rhs))
}

/// `(a == b)  =>  ((c, a) == (c, b))`.
pub fn tup_eq_snd(a: &Expr, b: &Expr, c: &Expr, p: &Pf) -> (r: Pf)
    requires
        p@ == mk_eqv(*a, *b),
    ensures
        r@ == mk_eqv(mk_tup(*c, *a), mk_tup(*c, *b)),
{
    let lhs = e_tup(dup_expr(c), dup_expr(a));
    let rhs = e_tup(dup_expr(c), dup_expr(b));
    Pf::mk(e_eqv(lhs, rhs))
}

/// `((a, b, c) : (x, y, z))  =>  (a : x)`.
pub fn tup3_fst(
    a: &Expr,
    b: &Expr,
    c: &Expr,
    x: &Expr,
    y: &Expr,
    z: &Expr,
    p: &Pf,
) -> (r: Pf)
    requires
        p@ == mk_ty(mk_tup3(*a, *b, *c), mk_tup3(*x, *y, *z)),
    ensures
        r@ == mk_ty(*a, *x),
{
    let bc = e_tup(dup_expr(b), dup_expr(c));
    let yz = e_tup(dup_expr(y), dup_expr(z));
    tup_fst(a, &bc, x, &yz, p)
}

/// `((a, b, c) : (x, y, z))  =>  (b : y)`.
pub fn tup3_snd(
    a: &Expr,
    b: &Expr,
    c: &Expr,
    x: &Expr,
    y: &Expr,
    z: &Expr,
    p: &Pf,
) -> (r: Pf)
    requires
        p@ == mk_ty(mk_tup3(*a, *b, *c), mk_tup3(*x, *y, *z)),
    ensures
        r@ == mk_ty(*b, *y),
{
    let bc = e_tup(dup_expr(b), dup_expr(c));
    let yz = e_tup(dup_expr(y), dup_expr(z));
    let inner = tup_snd(a, &bc, x, &yz, p);
    tup_fst(b, c, y, z, &inner)
}

/// `((a, b, c) : (x, y, z))  =>  (c : z)`.
pub fn tup3_trd(
    a: &Expr,
    b: &Expr,
    c: &Expr,
    x: &Expr,
    y: &Expr,
    z: &Expr,
    p: &Pf,
) -> (r: Pf)
    requires
        p@ == mk_ty(mk_tup3(*a, *b, *c), mk_tup3(*x, *y, *z)),
    ensures
        r@ == mk_ty(*c, *z),
{
    let bc = e_tup(dup_expr(b), dup_expr(c));
    let yz = e_tup(dup_expr(y), dup_expr(z));
    let inner = tup_snd(a, &bc, x, &yz, p);
    tup_snd(b, c, y, z, &inner)
}

/// `(a == b)  =>  ((a, c, d) == (b, c, d))`.
pub fn tup3_eq_fst(a: &Expr, b: &Expr, c: &Expr, d: &Expr, p: &Pf) -> (r: Pf)
    requires
        p@ == mk_eqv(*a, *b),
    ensures
        r@ == mk_eqv(mk_tup3(*a, *c, *d), mk_tup3(*b, *c, *d)),
{
    let cd = e_tup(dup_expr(c), dup_expr(d));
    tup_eq_fst(a, b, &cd, p)
}

/// `(a == b)  =>  ((c, a, d) == (c, b, d))`.
pub fn tup3_eq_snd(a: &Expr, b: &Expr, c: &Expr, d: &Expr, p: &Pf) -> (r: Pf)
    requires
        p@ == mk_eqv(*a, *b),
    ensures
        r@ == mk_eqv(mk_tup3(*c, *a, *d), mk_tup3(*c, *b, *d)),
{
    let inner = tup_eq_fst(a, b, d, p);
    let ad = e_tup(dup_expr(a), dup_expr(d));
    let bd = e_tup(dup_expr(b), dup_expr(d));
    tup_eq_snd(&ad, &bd, c, &inner)
}

/// `(a == b)  =>  ((c, d, a) == (c, d, b))`.
pub fn tup3_eq_trd(a: &Expr, b: &Expr, c: &Expr, d: &Expr, p: &Pf) -> (r: Pf)
    requires
        p@ == mk_eqv(*a, *b),
    ensures
        r@ == mk_eqv(mk_tup3(*c, *d, *a), mk_tup3(*c, *d, *b)),
{
    let inner = tup_eq_snd(a, b, d, p);
    let da = e_tup(dup_expr(d), dup_expr(a));
    let db = e_tup(dup_expr(d), dup_expr(b));
    tup_eq_snd(&da, &db, c, &inner)
}

/// Type of the first projection: `fst : (a, b) -> a`.
pub fn fst_ty(a: &Expr, b: &Expr) -> (r: Pf)
    ensures
        r@ == mk_ty(Expr::Fst, mk_pow(*a, mk_tup(*a, *b))),
{
    Pf::mk(e_ty(Expr::Fst, e_pow(dup_expr(a), e_tup(dup_expr(a), dup_expr(b)))))
}

/// `is_const(fst)`.
pub fn fst_is_const() -> (r: Pf)
    ensures
        r@ == mk_isconst(Expr::Fst),
{
    Pf::mk(e_isconst(Expr::Fst))
}

/// Defining equation of the first projection: `fst((a, b)) == a`.
pub fn fst_def(a: &Expr, b: &Expr) -> (r: Pf)
    ensures
        r@ == mk_eqv(mk_app(Expr::Fst, mk_tup(*a, *b)), *a),
{
    let lhs = e_app(Expr::Fst, e_tup(dup_expr(a), dup_expr(b)));
    Pf::mk(e_eqv(lhs, dup_expr(a)))
}

/// Type of the second projection: `snd : (a, b) -> b`.
pub fn snd_ty(a: &Expr, b: &Expr) -> (r: Pf)
    ensures
        r@ == mk_ty(Expr::Snd, mk_pow(*b, mk_tup(*a, *b))),
{
    Pf::mk(e_ty(Expr::Snd, e_pow(dup_expr(b), e_tup(dup_expr(a), dup_expr(b)))))
}

/// `is_const(snd)`.
pub fn snd_is_const() -> (r: Pf)
    ensures
        r@ == mk_isconst(Expr::Snd),
{
    Pf::mk(e_isconst(Expr::Snd))
}

/// Defining equation of the second projection: `snd((a, b)) == b`.
pub fn snd_def(a: &Expr, b: &Expr) -> (r: Pf)
    ensures
        r@ == mk_eqv(mk_app(Expr::Snd, mk_tup(*a, *b)), *b),
{
    let lhs = e_app(Expr::Snd, e_tup(dup_expr(a), dup_expr(b)));
    Pf::mk(e_eqv(lhs, dup_expr(b)))
}

// Substitution.

/// `a[a := b] == b`.
pub fn subst_trivial(a: &Expr, b: &Expr) -> (r: Pf)
    ensures
        r@ == mk_eqv(mk_subst(*a, *a, *b), *b),
{
    let lhs = e_subst(dup_expr(a), dup_expr(a), dup_expr(b));
    Pf::mk(e_eqv(lhs, dup_expr(b)))
}

/// `a[b := a] == a`.
pub fn subst_id(a: &Expr, b: &Expr) -> (r: Pf)
    ensures
        r@ == mk_eqv(mk_subst(*a, *b, *a), *a),
{
    let lhs = e_subst(dup_expr(a), dup_expr(b), dup_expr(a));
    Pf::mk(e_eqv(lhs, dup_expr(a)))
}

/// `a[b := b] == a`: substituting a variable by itself changes nothing.
pub fn subst_nop(a: &Expr, b: &Expr) -> (r: Pf)
    ensures
        r@ == mk_eqv(mk_subst(*a, *b, *b), *a),
{
    let lhs = e_subst(dup_expr(a), dup_expr(b), dup_expr(b));
    Pf::mk(e_eqv(lhs, dup_expr(a)))
}

/// `(a : b)  =>  (b[c := a] == b)`: a type is unchanged by substituting
/// one of its inhabitants.
pub fn subst_ty(a: &Expr, b: &Expr, c: &Expr, ty_a: &Pf) -> (r: Pf)
    requires
        ty_a@ == mk_ty(*a, *b),
    ensures
        r@ == mk_eqv(mk_subst(*b, *c, *a), *b),
{
    let lhs = e_subst(dup_expr(b), dup_expr(c), dup_expr(a));
    Pf::mk(e_eqv(lhs, dup_expr(b)))
}

/// `is_const(a)  =>  (a[b := c] == a)`: substitution does not touch a
/// variable-independent expression.
pub fn subst_const(a: &Expr, b: &Expr, c: &Expr, a_c: &Pf) -> (r: Pf)
    requires
        a_c@ == mk_isconst(*a),
    ensures
        r@ == mk_eqv(mk_subst(*a, *b, *c), *a),
{
    let lhs = e_subst(dup_expr(a), dup_expr(b), dup_expr(c));
    Pf::mk(e_eqv(lhs, dup_expr(a)))
}

/// `(a, b)[c := d] == (a[c := d], b[c := d])`: substitution distributes
/// over tuples.
pub fn subst_tup(a: &Expr, b: &Expr, c: &Expr, d: &Expr) -> (r: Pf)
    ensures
        r@ == mk_eqv(
            mk_subst(mk_tup(*a, *b), *c, *d),
            mk_tup(mk_subst(*a, *c, *d), mk_subst(*b, *c, *d)),
        ),
{
    let lhs = e_subst(e_tup(dup_expr(a), dup_expr(b)), dup_expr(c), dup_expr(d));
    let rhs = e_tup(
        e_subst(dup_expr(a), dup_expr(c), dup_expr(d)),
        e_subst(dup_expr(b), dup_expr(c), dup_expr(d)),
    );
    Pf::mk(e_eqv(lhs, rhs))
}

/// How substitution passes under a binder: the head type is rewritten,
/// and the body is rewritten and then restored at the bound variable.
pub fn subst_lam(a: &Expr, b: &Expr, c: &Expr, d: &Expr, x: &Expr) -> (r: Pf)
    ensures
        r@ == mk_eqv(
            mk_subst(mk_lam(mk_ty(*a, *x), *b), *c, *d),
            mk_lam(
                mk_ty(*a, mk_subst(*x, *c, *d)),
                mk_subst(mk_subst(*b, *c, *d), *a, *c),
            ),
        ),
{
    let lhs = e_subst(
        e_lam(e_ty(dup_expr(a), dup_expr(x)), dup_expr(b)),
        dup_expr(c),
        dup_expr(d),
    );
    let rhs = e_lam(
        e_ty(dup_expr(a), e_subst(dup_expr(x), dup_expr(c), dup_expr(d))),
        e_subst(
            e_subst(dup_expr(b), dup_expr(c), dup_expr(d)),
            dup_expr(a),
            dup_expr(c),
        ),
    );
    Pf::mk(e_eqv(lhs, rhs))
}

/// The hygiene side of [`subst_lam`]: holding its equation forces the
/// bound variable to be constant with respect to the substitution.
pub fn subst_lam_const(a: &Expr, b: &Expr, c: &Expr, d: &Expr, x: &Expr, p: &Pf) -> (r: Pf)
    requires
        p@ == mk_eqv(
            mk_subst(mk_lam(mk_ty(*a, *x), *b), *c, *d),
            mk_lam(
                mk_ty(*a, mk_subst(*x, *c, *d)),
                mk_subst(mk_subst(*b, *c, *d), *a, *c),
            ),
        ),
    ensures
        r@ == mk_isconst(*a),
{
    Pf::mk(e_isconst(dup_expr(a)))
}

/// `(a[c := d] == b)  =>  (a[c := d][e := f] == b[c := d])`.
pub fn subst_eq(
    a: &Expr,
    b: &Expr,
    c: &Expr,
    d: &Expr,
    e: &Expr,
    f: &Expr,
    x: &Pf,
) -> (r: Pf)
    requires
        x@ == mk_eqv(mk_subst(*a, *c, *d), *b),
    ensures
        r@ == mk_eqv(
            mk_subst(mk_subst(*a, *c, *d), *e, *f),
            mk_subst(*b, *c, *d),
        ),
{
    let lhs = e_subst(
        e_subst(dup_expr(a), dup_expr(c), dup_expr(d)),
        dup_expr(e),
        dup_expr(f),
    );
    let rhs = e_subst(dup_expr(b), dup_expr(c), dup_expr(d));
    Pf::mk(e_eqv(lhs, rhs))
}

/// `(a[c := d] == b)  =>  ((\(e) = a[c := d]) == (\(e) = b))`.
pub fn subst_eq_lam_body(a: &Expr, b: &Expr, c: &Expr, d: &Expr, e: &Expr, x: &Pf) -> (r: Pf)
    requires
        x@ == mk_eqv(mk_subst(*a, *c, *d), *b),
    ensures
        r@ == mk_eqv(
            mk_lam(*e, mk_subst(*a, *c, *d)),
            mk_lam(*e, *b),
        ),
{
    let lhs = e_lam(dup_expr(e), e_subst(dup_expr(a), dup_expr(c), dup_expr(d)));
    let rhs = e_lam(dup_expr(e), dup_expr(b));
    Pf::mk(e_eqv(lhs, rhs))
}

/// `is_const(a) ∧ is_const(b)  =>  is_const((a, b))`.
pub fn const_tup(a: &Expr, b: &Expr, pa: &Pf, pb: &Pf) -> (r: Pf)
    requires
        pa@ == mk_isconst(*a),
        pb@ == mk_isconst(*b),
    ensures
        r@ == mk_isconst(mk_tup(*a, *b)),
{
    tup_is_const(a, b, pa, pb)
}

/// `is_const((a, b))  =>  is_const(a) ∧ is_const(b)`.
pub fn tup_const(a: &Expr, b: &Expr, p: &Pf) -> (r: Pf)
    requires
        p@ == mk_isconst(mk_tup(*a, *b)),
    ensures
        r@ == mk_and(mk_isconst(*a), mk_isconst(*b)),
{
    Pf::mk(e_and(e_isconst(dup_expr(a)), e_isconst(dup_expr(b))))
}

// Binders.

/// `(a : x) ∧ (b : y)  =>  ((\(a : x) = b) : (x => y))`.
pub fn lam_ty(a: &Expr, b: &Expr, x: &Expr, y: &Expr, ty_a: &Pf, ty_b: &Pf) -> (r: Pf)
    requires
        ty_a@ == mk_ty(*a, *x),
        ty_b@ == mk_ty(*b, *y),
    ensures
        r@ == mk_ty(mk_lam(mk_ty(*a, *x), *b), mk_imp(*x, *y)),
{
    let lam = e_lam(e_ty(dup_expr(a), dup_expr(x)), dup_expr(b));
    Pf::mk(e_ty(lam, e_imp(dup_expr(x), dup_expr(y))))
}

/// `(a : x) ∧ b  =>  (\(a : x) = b)`.
pub fn lam_lift(a: &Expr, b: &Expr, x: &Expr, ty_a: &Pf, pb: &Pf) -> (r: Pf)
    requires
        ty_a@ == mk_ty(*a, *x),
        pb@ == *b,
    ensures
        r@ == mk_lam(mk_ty(*a, *x), *b),
{
    Pf::mk(e_lam(e_ty(dup_expr(a), dup_expr(x)), dup_expr(b)))
}

/// `(a : x) ∧ (b == c)  =>  ((\(a : x) = b) == (\(a : x) = c))`.
pub fn lam_eq_lift(a: &Expr, x: &Expr, b: &Expr, c: &Expr, ty_a: &Pf, eq: &Pf) -> (r: Pf)
    requires
        ty_a@ == mk_ty(*a, *x),
        eq@ == mk_eqv(*b, *c),
    ensures
        r@ == mk_eqv(
            mk_lam(mk_ty(*a, *x), *b),
            mk_lam(mk_ty(*a, *x), *c),
        ),
{
    let lhs = e_lam(e_ty(dup_expr(a), dup_expr(x)), dup_expr(b));
    let rhs = e_lam(e_ty(dup_expr(a), dup_expr(x)), dup_expr(c));
    Pf::mk(e_eqv(lhs, rhs))
}

/// Beta: `(c : x)  =>  ((\(a : x) = b)(c) == b[a := c])`.
pub fn lam(a: &Expr, b: &Expr, x: &Expr, c: &Expr, ty_c: &Pf) -> (r: Pf)
    requires
        ty_c@ == mk_ty(*c, *x),
    ensures
        r@ == mk_eqv(
            mk_app(mk_lam(mk_ty(*a, *x), *b), *c),
            mk_subst(*b, *a, *c),
        ),
{
    let lhs = e_app(e_lam(e_ty(dup_expr(a), dup_expr(x)), dup_expr(b)), dup_expr(c));
    let rhs = e_subst(dup_expr(b), dup_expr(a), dup_expr(c));
    Pf::mk(e_eqv(lhs, rhs))
}

/// `(a : x) ∧ (b : y) ∧ (c : x) ∧ is_const(x)  =>
/// ((\(a : x) = b)(c) : y)`.
pub fn lam_app_ty(
    a: &Expr,
    b: &Expr,
    x: &Expr,
    y: &Expr,
    c: &Expr,
    ty_a: &Pf,
    ty_b: &Pf,
    ty_c: &Pf,
    x_c: &Pf,
) -> (r: Pf)
    requires
        ty_a@ == mk_ty(*a, *x),
        ty_b@ == mk_ty(*b, *y),
        ty_c@ == mk_ty(*c, *x),
        x_c@ == mk_isconst(*x),
    ensures
        r@ == mk_ty(mk_app(mk_lam(mk_ty(*a, *x), *b), *c), *y),
{
    let ty_lam = lam_ty(a, b, x, y, ty_a, ty_b);
    let lam_e = e_lam(e_ty(dup_expr(a), dup_expr(x)), dup_expr(b));
    app_lam_ty(&lam_e, x, y, c, &ty_lam, ty_c, x_c)
}

/// `(a : x) ∧ (b : y) ∧ (c : x)  =>
/// ((\(a : x) = b)(c) : y[a := c])`.
pub fn lam_dep_app_ty(
    a: &Expr,
    b: &Expr,
    x: &Expr,
    y: &Expr,
    c: &Expr,
    ty_a: &Pf,
    ty_b: &Pf,
    ty_c: &Pf,
) -> (r: Pf)
    requires
        ty_a@ == mk_ty(*a, *x),
        ty_b@ == mk_ty(*b, *y),
        ty_c@ == mk_ty(*c, *x),
    ensures
        r@ == mk_ty(
            mk_app(mk_lam(mk_ty(*a, *x), *b), *c),
            mk_subst(*y, *a, *c),
        ),
{
    let ty_lam = lam_ty(a, b, x, y, ty_a, ty_b);
    app_dep_lam_ty(a, b, c, x, y, &ty_lam, ty_a, ty_b, ty_c)
}

/// `(a : x) ∧ (b : x)  =>  ((\(a : x) = b)(b) : x)`.
pub fn lam_app_ty_trivial(a: &Expr, b: &Expr, x: &Expr, ty_a: &Pf, ty_b: &Pf) -> (r: Pf)
    requires
        ty_a@ == mk_ty(*a, *x),
        ty_b@ == mk_ty(*b, *x),
    ensures
        r@ == mk_ty(mk_app(mk_lam(mk_ty(*a, *x), *b), *b), *x),
{
    let dep = lam_dep_app_ty(a, b, x, x, b, ty_a, ty_b, ty_b);
    let st = subst_ty(b, x, a, ty_b);
    let subj = e_app(e_lam(e_ty(dup_expr(a), dup_expr(x)), dup_expr(b)), dup_expr(b));
    let sub = e_subst(dup_expr(x), dup_expr(a), dup_expr(b));
    ty_in_right_arg(&subj, &sub, x, &dep, &st)
}

/// `(b : x)  =>  ((\(a : x) = b)(b) == b)`.
pub fn lam_app_trivial(a: &Expr, b: &Expr, x: &Expr, ty_b: &Pf) -> (r: Pf)
    requires
        ty_b@ == mk_ty(*b, *x),
    ensures
        r@ == mk_eqv(mk_app(mk_lam(mk_ty(*a, *x), *b), *b), *b),
{
    let beta = lam(a, b, x, b, ty_b);
    let si = subst_id(b, a);
    let app = e_app(e_lam(e_ty(dup_expr(a), dup_expr(x)), dup_expr(b)), dup_expr(b));
    let sub = e_subst(dup_expr(b), dup_expr(a), dup_expr(b));
    transitivity(&app, &sub, b, &beta, &si)
}

/// `(\(a : x) = a) ~~ id`.
pub fn lam_id_q(a: &Expr, x: &Expr) -> (r: Pf)
    ensures
        r@ == mk_qual(mk_lam_id(*a, *x), Expr::FId),
{
    Pf::mk(e_qual(e_lam_id(dup_expr(a), dup_expr(x)), Expr::FId))
}

/// `(a : x)  =>  ((\(a : x) = a) : (x => x))`.
pub fn lam_id_ty(a: &Expr, x: &Expr, ty_a: &Pf) -> (r: Pf)
    requires
        ty_a@ == mk_ty(*a, *x),
    ensures
        r@ == mk_ty(mk_lam_id(*a, *x), mk_imp(*x, *x)),
{
    lam_ty(a, a, x, x, ty_a, ty_a)
}

/// `(a : x) ∧ (b : x) ∧ is_const(x)  =>  ((\(a : x) = a)(b) : x)`.
pub fn lam_id_app_ty(a: &Expr, b: &Expr, x: &Expr, ty_a: &Pf, ty_b: &Pf, x_c: &Pf) -> (r: Pf)
    requires
        ty_a@ == mk_ty(*a, *x),
        ty_b@ == mk_ty(*b, *x),
        x_c@ == mk_isconst(*x),
    ensures
        r@ == mk_ty(mk_app(mk_lam_id(*a, *x), *b), *x),
{
    lam_app_ty(a, a, x, x, b, ty_a, ty_a, ty_b, x_c)
}

/// `(\(a : x) = a)(b) == b`: the identity binder computes as the
/// identity function, through its quality with `id`.
pub fn lam_id(a: &Expr, b: &Expr, x: &Expr) -> (r: Pf)
    ensures
        r@ == mk_eqv(mk_app(mk_lam_id(*a, *x), *b), *b),
{
    let q = lam_id_q(a, x);
    let lamid = e_lam_id(dup_expr(a), dup_expr(x));
    let fid = Expr::FId;
    let qe = qual_to_eq(&lamid, &fid, &q);
    let am = app_map_eq(&lamid, &fid, b, &qe);
    let idd = id_def(b);
    let app_l = e_app(e_lam_id(dup_expr(a), dup_expr(x)), dup_expr(b));
    let app_i = e_app(Expr::FId, dup_expr(b));
    transitivity(&app_l, &app_i, b, &am, &idd)
}

/// `(a : x) ∧ (b : y)  =>
/// ((\(a : x) = \(b : y) = a) : (x => (y => x)))`.
pub fn lam_fst_ty(a: &Expr, x: &Expr, b: &Expr, y: &Expr, ty_a: &Pf, ty_b: &Pf) -> (r: Pf)
    requires
        ty_a@ == mk_ty(*a, *x),
        ty_b@ == mk_ty(*b, *y),
    ensures
        r@ == mk_ty(mk_lam_fst(*a, *x, *b, *y), mk_imp(*x, mk_imp(*y, *x))),
{
    let inner = lam_ty(b, a, y, x, ty_b, ty_a);
    let inner_e = e_lam(e_ty(dup_expr(b), dup_expr(y)), dup_expr(a));
    let yx = e_imp(dup_expr(y), dup_expr(x));
    lam_ty(a, &inner_e, x, &yx, ty_a, &inner)
}

/// `(c : x)  =>
/// ((\(a : x) = \(b : y) = a)(c) == (\(b : y[a := c]) = c))`.
/// Derived by beta reduction, pushing the substitution under the inner
/// binder, and collapsing the chained substitutions.
pub fn lam_fst(a: &Expr, x: &Expr, b: &Expr, y: &Expr, c: &Expr, ty_c: &Pf) -> (r: Pf)
    requires
        ty_c@ == mk_ty(*c, *x),
    ensures
        r@ == mk_eqv(
            mk_app(mk_lam_fst(*a, *x, *b, *y), *c),
            mk_lam(mk_ty(*b, mk_subst(*y, *a, *c)), *c),
        ),
{
    let inner_e = e_lam(e_ty(dup_expr(b), dup_expr(y)), dup_expr(a));
    let s1 = lam(a, &inner_e, x, c, ty_c);
    let s2 = subst_lam(b, a, a, c, y);
    let app_e = e_app(
        e_lam(e_ty(dup_expr(a), dup_expr(x)), e_lam(e_ty(dup_expr(b), dup_expr(y)), dup_expr(a))),
        dup_expr(c),
    );
    let sub_inner = e_subst(
        e_lam(e_ty(dup_expr(b), dup_expr(y)), dup_expr(a)),
        dup_expr(a),
        dup_expr(c),
    );
    let head_s = e_ty(dup_expr(b), e_subst(dup_expr(y), dup_expr(a), dup_expr(c)));
    let body_s = e_subst(
        e_subst(dup_expr(a), dup_expr(a), dup_expr(c)),
        dup_expr(b),
        dup_expr(a),
    );
    let mid = e_lam(dup_expr(&head_s), dup_expr(&body_s));
    let t1 = transitivity(&app_e, &sub_inner, &mid, &s1, &s2);
    let u1 = subst_trivial(a, c);
    let u2 = subst_eq(a, c, a, c, b, a, &u1);
    let u3 = subst_id(c, a);
    let sca = e_subst(dup_expr(c), dup_expr(a), dup_expr(c));
    let u4 = transitivity(&body_s, &sca, c, &u2, &u3);
    let saac = e_subst(dup_expr(a), dup_expr(a), dup_expr(c));
    let s3 = subst_eq_lam_body(&saac, c, b, a, &head_s, &u4);
    let fin_e = e_lam(dup_expr(&head_s), dup_expr(c));
    transitivity(&app_e, &mid, &fin_e, &t1, &s3)
}

/// `(a : x) ∧ (b : y)  =>
/// ((\(a : x) = \(b : y) = b) : (x => (y => y)))`.
pub fn lam_snd_ty(a: &Expr, x: &Expr, b: &Expr, y: &Expr, ty_a: &Pf, ty_b: &Pf) -> (r: Pf)
    requires
        ty_a@ == mk_ty(*a, *x),
        ty_b@ == mk_ty(*b, *y),
    ensures
        r@ == mk_ty(mk_lam_snd(*a, *x, *b, *y), mk_imp(*x, mk_imp(*y, *y))),
{
    let inner = lam_ty(b, b, y, y, ty_b, ty_b);
    let inner_e = e_lam_id(dup_expr(b), dup_expr(y));
    let yy = e_imp(dup_expr(y), dup_expr(y));
    lam_ty(a, &inner_e, x, &yy, ty_a, &inner)
}

/// `(c : x)  =>
/// ((\(a : x) = \(b : y) = b)(c) == (\(b : y[a := c]) = b))`.
/// The hygiene hypothesis — the bound variable is constant with respect
/// to the substitution — comes from [`subst_lam_const`] on the equation
/// of [`subst_lam`] itself.
pub fn lam_snd(a: &Expr, b: &Expr, c: &Expr, x: &Expr, y: &Expr, ty_c: &Pf) -> (r: Pf)
    requires
        ty_c@ == mk_ty(*c, *x),
    ensures
        r@ == mk_eqv(
            mk_app(mk_lam_snd(*a, *x, *b, *y), *c),
            mk_lam(mk_ty(*b, mk_subst(*y, *a, *c)), *b),
        ),
{
    let inner_e = e_lam_id(dup_expr(b), dup_expr(y));
    let s1 = lam(a, &inner_e, x, c, ty_c);
    let x2 = subst_lam(b, b, a, c, y);
    let b_is_const = subst_lam_const(b, b, a, c, y, &x2);
    let v1 = subst_const(b, a, c, &b_is_const);
    let v2 = subst_eq(b, b, a, c, b, a, &v1);
    let v3 = subst_const(b, a, c, &b_is_const);
    let sbac = e_subst(dup_expr(b), dup_expr(a), dup_expr(c));
    let body_s = e_subst(dup_expr(&sbac), dup_expr(b), dup_expr(a));
    let v4 = transitivity(&body_s, &sbac, b, &v2, &v3);
    let head_s = e_ty(dup_expr(b), e_subst(dup_expr(y), dup_expr(a), dup_expr(c)));
    let s3 = subst_eq_lam_body(&sbac, b, b, a, &head_s, &v4);
    let app_e = e_app(
        e_lam(e_ty(dup_expr(a), dup_expr(x)), e_lam_id(dup_expr(b), dup_expr(y))),
        dup_expr(c),
    );
    let sub_inner = e_subst(e_lam_id(dup_expr(b), dup_expr(y)), dup_expr(a), dup_expr(c));
    let mid = e_lam(dup_expr(&head_s), dup_expr(&body_s));
    let t1 = transitivity(&app_e, &sub_inner, &mid, &s1, &x2);
    let fin_e = e_lam(dup_expr(&head_s), dup_expr(b));
    transitivity(&app_e, &mid, &fin_e, &t1, &s3)
}

// Parallel tuples.

/// `(f : (x1 -> y1)) ∧ (g : (x2 -> y2))  =>
/// ((f x g) : ((x1, x2) -> (y1, y2)))`.
pub fn par_tup_fun_ty(
    f: &Expr,
    g: &Expr,
    x1: &Expr,
    x2: &Expr,
    y1: &Expr,
    y2: &Expr,
    ty_f: &Pf,
    ty_g: &Pf,
) -> (r: Pf)
    requires
        ty_f@ == mk_ty(*f, mk_pow(*y1, *x1)),
        ty_g@ == mk_ty(*g, mk_pow(*y2, *x2)),
    ensures
        r@ == mk_ty(
            mk_par_pair(*f, *g),
            mk_pow(mk_tup(*y1, *y2), mk_tup(*x1, *x2)),
        ),
{
    let subj = e_par_pair(dup_expr(f), dup_expr(g));
    let typ = e_pow(e_tup(dup_expr(y1), dup_expr(y2)), e_tup(dup_expr(x1), dup_expr(x2)));
    Pf::mk(e_ty(subj, typ))
}

/// `(f : (x1 => y1)) ∧ (g : (x2 => y2))  =>
/// ((f x g) : ((x1, x2) => (y1, y2)))`.
pub fn par_tup_lam_ty(
    f: &Expr,
    g: &Expr,
    x1: &Expr,
    x2: &Expr,
    y1: &Expr,
    y2: &Expr,
    ty_f: &Pf,
    ty_g: &Pf,
) -> (r: Pf)
    requires
        ty_f@ == mk_ty(*f, mk_imp(*x1, *y1)),
        ty_g@ == mk_ty(*g, mk_imp(*x2, *y2)),
    ensures
        r@ == mk_ty(
            mk_par_pair(*f, *g),
            mk_imp(mk_tup(*x1, *x2), mk_tup(*y1, *y2)),
        ),
{
    let subj = e_par_pair(dup_expr(f), dup_expr(g));
    let typ = e_imp(e_tup(dup_expr(x1), dup_expr(x2)), e_tup(dup_expr(y1), dup_expr(y2)));
    Pf::mk(e_ty(subj, typ))
}

/// `is_const(par_tup)`.
pub fn par_tup_is_const() -> (r: Pf)
    ensures
        r@ == mk_isconst(Expr::ParTup),
{
    Pf::mk(e_isconst(Expr::ParTup))
}

/// `(id x id) == id`.
pub fn par_tup_id() -> (r: Pf)
    ensures
        r@ == mk_eqv(mk_par_pair(Expr::FId, Expr::FId), Expr::FId),
{
    Pf::mk(e_eqv(e_par_pair(Expr::FId, Expr::FId), Expr::FId))
}

/// `is_const(f) ∧ is_const(g)  =>  is_const(f x g)`.
pub fn par_tup_app_is_const(f: &Expr, g: &Expr, pf: &Pf, pg: &Pf) -> (r: Pf)
    requires
        pf@ == mk_isconst(*f),
        pg@ == mk_isconst(*g),
    ensures
        r@ == mk_isconst(mk_par_pair(*f, *g)),
{
    let pt = par_tup_is_const();
    let tc = tup_is_const(f, g, pf, pg);
    let pt_e = Expr::ParTup;
    let tup_e = e_tup(dup_expr(f), dup_expr(g));
    app_is_const(&pt_e, &tup_e, &pt, &tc)
}

/// `((g1 x g2) . (f1 x f2))  ==  ((g1 . f1) x (g2 . f2))`.
pub fn par_tup_comp(f1: &Expr, f2: &Expr, g1: &Expr, g2: &Expr) -> (r: Pf)
    ensures
        r@ == mk_eqv(
            mk_comp(mk_par_pair(*g1, *g2), mk_par_pair(*f1, *f2)),
            mk_par_pair(mk_comp(*g1, *f1), mk_comp(*g2, *f2)),
        ),
{
    let lhs = e_comp(
        e_par_pair(dup_expr(g1), dup_expr(g2)),
        e_par_pair(dup_expr(f1), dup_expr(f2)),
    );
    let rhs = e_par_pair(
        e_comp(dup_expr(g1), dup_expr(f1)),
        e_comp(dup_expr(g2), dup_expr(f2)),
    );
    Pf::mk(e_eqv(lhs, rhs))
}

/// `inv(f x g)  ==  (inv(f) x inv(g))`.
pub fn par_tup_inv(f: &Expr, g: &Expr) -> (r: Pf)
    ensures
        r@ == mk_eqv(
            mk_inv(mk_par_pair(*f, *g)),
            mk_par_pair(mk_inv(*f), mk_inv(*g)),
        ),
{
    let lhs = e_inv(e_par_pair(dup_expr(f), dup_expr(g)));
    let rhs = e_par_pair(e_inv(dup_expr(f)), e_inv(dup_expr(g)));
    Pf::mk(e_eqv(lhs, rhs))
}

/// `(f(i0) == o0) ∧ (g(i1) == o1)  =>
/// ((f x g)(i0, i1) == (o0, o1))`.
pub fn par_tup_def(
    f: &Expr,
    g: &Expr,
    i0: &Expr,
    i1: &Expr,
    o0: &Expr,
    o1: &Expr,
    eq0: &Pf,
    eq1: &Pf,
) -> (r: Pf)
    requires
        eq0@ == mk_eqv(mk_app(*f, *i0), *o0),
        eq1@ == mk_eqv(mk_app(*g, *i1), *o1),
    ensures
        r@ == mk_eqv(
            mk_app(mk_par_pair(*f, *g), mk_tup(*i0, *i1)),
            mk_tup(*o0, *o1),
        ),
{
    let lhs = e_app(
        e_par_pair(dup_expr(f), dup_expr(g)),
        e_tup(dup_expr(i0), dup_expr(i1)),
    );
    let rhs = e_tup(dup_expr(o0), dup_expr(o1));
    Pf::mk(e_eqv(lhs, rhs))
}

// Normalization: viewing a function through coordinate changes.

/// `f[g1 -> g2][g3 -> g4]  ==  f[(g3 . g1) -> (g4 . g2)]`: two
/// successive normalizations collapse into one with composed coordinate
/// maps.  Derived from associativity of composition and the
/// contravariant duality of the inverse.
pub fn norm1_comp(f: &Expr, g1: &Expr, g2: &Expr, g3: &Expr, g4: &Expr) -> (r: Pf)
    ensures
        r@ == mk_eqv(
            mk_norm1(mk_norm1(*f, *g1, *g2), *g3, *g4),
            mk_norm1(*f, mk_comp(*g3, *g1), mk_comp(*g4, *g2)),
        ),
{
    let n = e_norm1(dup_expr(f), dup_expr(g1), dup_expr(g2));
    let lhs = e_norm1(dup_expr(&n), dup_expr(g3), dup_expr(g4));
    let inv_g1 = e_inv(dup_expr(g1));
    let inv_g3 = e_inv(dup_expr(g3));
    let x0 = e_comp(dup_expr(g4), e_comp(dup_expr(g2), dup_expr(f)));
    let g4n = e_comp(dup_expr(g4), dup_expr(&n));
    let x0_ig1 = e_comp(dup_expr(&x0), dup_expr(&inv_g1));
    let a1 = comp_assoc(&inv_g1, &e_comp(dup_expr(g2), dup_expr(f)), g4);
    let a2 = comp_eq_left(&g4n, &inv_g3, &x0_ig1, &a1);
    let mid1 = e_comp(dup_expr(&x0_ig1), dup_expr(&inv_g3));
    let ii = e_comp(dup_expr(&inv_g1), dup_expr(&inv_g3));
    let a3 = comp_assoc(&inv_g3, &inv_g1, &x0);
    let x0_ii = e_comp(dup_expr(&x0), dup_expr(&ii));
    let a4 = commute(&x0_ii, &mid1, &a3);
    let y = transitivity(&lhs, &mid1, &x0_ii, &a2, &a4);
    let b1 = comp_inv(g1, g3);
    let inv_c = e_inv(e_comp(dup_expr(g3), dup_expr(g1)));
    let b2 = comp_eq_right(&x0, &ii, &inv_c, &b1);
    let x0_ic = e_comp(dup_expr(&x0), dup_expr(&inv_c));
    let y2 = transitivity(&lhs, &x0_ii, &x0_ic, &y, &b2);
    let c1 = comp_assoc(f, g2, g4);
    let x1 = e_comp(e_comp(dup_expr(g4), dup_expr(g2)), dup_expr(f));
    let c2 = comp_eq_left(&x0, &inv_c, &x1, &c1);
    let rhs = e_comp(dup_expr(&x1), dup_expr(&inv_c));
    transitivity(&lhs, &x0_ic, &rhs, &y2, &c2)
}

/// `f[g1][g2]  ==  f[g2 . g1]` for one argument.
pub fn sym_norm1_comp(f: &Expr, g1: &Expr, g2: &Expr) -> (r: Pf)
    ensures
        r@ == mk_eqv(
            mk_sym_norm1(mk_sym_norm1(*f, *g1), *g2),
            mk_sym_norm1(*f, mk_comp(*g2, *g1)),
        ),
{
    norm1_comp(f, g1, g1, g2, g2)
}

/// `(f == h)  =>  (f[g1 -> g2] == h[g1 -> g2])`.
pub fn norm1_eq(f: &Expr, g1: &Expr, g2: &Expr, h: &Expr, x: &Pf) -> (r: Pf)
    requires
        x@ == mk_eqv(*f, *h),
    ensures
        r@ == mk_eqv(mk_norm1(*f, *g1, *g2), mk_norm1(*h, *g1, *g2)),
{
    let inner = comp_eq_right(g2, f, h, x);
    let g2f = e_comp(dup_expr(g2), dup_expr(f));
    let g2h = e_comp(dup_expr(g2), dup_expr(h));
    let inv_g1 = e_inv(dup_expr(g1));
    comp_eq_left(&g2f, &inv_g1, &g2h, &inner)
}

/// `(g1 == h)  =>  (f[g1 -> g2] == f[h -> g2])`.
pub fn norm1_eq_in(f: &Expr, g1: &Expr, g2: &Expr, h: &Expr, x: &Pf) -> (r: Pf)
    requires
        x@ == mk_eqv(*g1, *h),
    ensures
        r@ == mk_eqv(mk_norm1(*f, *g1, *g2), mk_norm1(*f, *h, *g2)),
{
    let ie = inv_eq(g1, h, x);
    let g2f = e_comp(dup_expr(g2), dup_expr(f));
    let inv_g1 = e_inv(dup_expr(g1));
    let inv_h = e_inv(dup_expr(h));
    comp_eq_right(&g2f, &inv_g1, &inv_h, &ie)
}

/// `(g2 == h)  =>  (f[g1 -> g2] == f[g1 -> h])`.
pub fn norm1_eq_out(f: &Expr, g1: &Expr, g2: &Expr, h: &Expr, x: &Pf) -> (r: Pf)
    requires
        x@ == mk_eqv(*g2, *h),
    ensures
        r@ == mk_eqv(mk_norm1(*f, *g1, *g2), mk_norm1(*f, *g1, *h)),
{
    let inner = comp_eq_left(g2, f, h, x);
    let g2f = e_comp(dup_expr(g2), dup_expr(f));
    let hf = e_comp(dup_expr(h), dup_expr(f));
    let inv_g1 = e_inv(dup_expr(g1));
    comp_eq_left(&g2f, &inv_g1, &hf, &inner)
}

/// `(f == h)  =>  (f[g1 x g2 -> g3] == h[g1 x g2 -> g3])`.
pub fn norm2_eq(f: &Expr, g1: &Expr, g2: &Expr, g3: &Expr, h: &Expr, x: &Pf) -> (r: Pf)
    requires
        x@ == mk_eqv(*f, *h),
    ensures
        r@ == mk_eqv(mk_norm2(*f, *g1, *g2, *g3), mk_norm2(*h, *g1, *g2, *g3)),
{
    let inner = comp_eq_right(g3, f, h, x);
    let g3f = e_comp(dup_expr(g3), dup_expr(f));
    let g3h = e_comp(dup_expr(g3), dup_expr(h));
    let pp = e_par_pair(e_inv(dup_expr(g1)), e_inv(dup_expr(g2)));
    comp_eq_left(&g3f, &pp, &g3h, &inner)
}

/// `f[g1 x g2 -> g3]  ==  f[(g1 x g2) -> g3]`: the two-argument normal
/// path is the one-argument path at the parallel tuple.
pub fn eq_norm2_norm1(f: &Expr, g1: &Expr, g2: &Expr, g3: &Expr) -> (r: Pf)
    ensures
        r@ == mk_eqv(
            mk_norm2(*f, *g1, *g2, *g3),
            mk_norm1(*f, mk_par_pair(*g1, *g2), *g3),
        ),
{
    let pti = par_tup_inv(g1, g2);
    let pp_inv = e_par_pair(e_inv(dup_expr(g1)), e_inv(dup_expr(g2)));
    let inv_pp = e_inv(e_par_pair(dup_expr(g1), dup_expr(g2)));
    let sym = commute(&inv_pp, &pp_inv, &pti);
    let g3f = e_comp(dup_expr(g3), dup_expr(f));
    comp_eq_right(&g3f, &pp_inv, &inv_pp, &sym)
}

/// `f[g1 x g2 -> g3][g4 x g5 -> g6]  ==
/// f[(g1 x g2) -> g3][(g4 x g5) -> g6]`.
pub fn eq_norm2_norm1_comp(
    f: &Expr,
    g1: &Expr,
    g2: &Expr,
    g3: &Expr,
    g4: &Expr,
    g5: &Expr,
    g6: &Expr,
) -> (r: Pf)
    ensures
        r@ == mk_eqv(
            mk_norm2(mk_norm2(*f, *g1, *g2, *g3), *g4, *g5, *g6),
            mk_norm1(
                mk_norm1(*f, mk_par_pair(*g1, *g2), *g3),
                mk_par_pair(*g4, *g5),
                *g6,
            ),
        ),
{
    let n2 = e_norm2(dup_expr(f), dup_expr(g1), dup_expr(g2), dup_expr(g3));
    let n1a = e_norm1(dup_expr(f), e_par_pair(dup_expr(g1), dup_expr(g2)), dup_expr(g3));
    let c1 = eq_norm2_norm1(f, g1, g2, g3);
    let c2 = norm2_eq(&n2, g4, g5, g6, &n1a, &c1);
    let c3 = eq_norm2_norm1(&n1a, g4, g5, g6);
    let lhs = e_norm2(dup_expr(&n2), dup_expr(g4), dup_expr(g5), dup_expr(g6));
    let mid = e_norm2(dup_expr(&n1a), dup_expr(g4), dup_expr(g5), dup_expr(g6));
    let rhs = e_norm1(dup_expr(&n1a), e_par_pair(dup_expr(g4), dup_expr(g5)), dup_expr(g6));
    transitivity(&lhs, &mid, &rhs, &c2, &c3)
}

/// `f[g1 x g2 -> g3][g4 x g5 -> g6]  ==
/// f[(g4 . g1) x (g5 . g2) -> (g6 . g3)]`: two-argument normalizations
/// collapse with componentwise composed coordinate maps.
pub fn norm2_comp(
    f: &Expr,
    g1: &Expr,
    g2: &Expr,
    g3: &Expr,
    g4: &Expr,
    g5: &Expr,
    g6: &Expr,
) -> (r: Pf)
    ensures
        r@ == mk_eqv(
            mk_norm2(mk_norm2(*f, *g1, *g2, *g3), *g4, *g5, *g6),
            mk_norm2(*f, mk_comp(*g4, *g1), mk_comp(*g5, *g2), mk_comp(*g6, *g3)),
        ),
{
    let p12 = e_par_pair(dup_expr(g1), dup_expr(g2));
    let p45 = e_par_pair(dup_expr(g4), dup_expr(g5));
    let c41 = e_comp(dup_expr(g4), dup_expr(g1));
    let c52 = e_comp(dup_expr(g5), dup_expr(g2));
    let c63 = e_comp(dup_expr(g6), dup_expr(g3));
    let c1 = eq_norm2_norm1_comp(f, g1, g2, g3, g4, g5, g6);
    let c2 = norm1_comp(f, &p12, g3, &p45, g6);
    let c3 = par_tup_comp(g1, g2, g4, g5);
    let cpp = e_comp(dup_expr(&p45), dup_expr(&p12));
    let ppc = e_par_pair(dup_expr(&c41), dup_expr(&c52));
    let c4 = norm1_eq_in(f, &cpp, &c63, &ppc, &c3);
    let c5 = eq_norm2_norm1(f, &c41, &c52, &c63);
    let n2n2 = e_norm2(
        e_norm2(dup_expr(f), dup_expr(g1), dup_expr(g2), dup_expr(g3)),
        dup_expr(g4),
        dup_expr(g5),
        dup_expr(g6),
    );
    let n1n1 = e_norm1(
        e_norm1(dup_expr(f), dup_expr(&p12), dup_expr(g3)),
        dup_expr(&p45),
        dup_expr(g6),
    );
    let ncpp = e_norm1(dup_expr(f), dup_expr(&cpp), dup_expr(&c63));
    let nppc = e_norm1(dup_expr(f), dup_expr(&ppc), dup_expr(&c63));
    let rhs = e_norm2(dup_expr(f), dup_expr(&c41), dup_expr(&c52), dup_expr(&c63));
    let c5s = commute(&rhs, &nppc, &c5);
    let t1 = transitivity(&n2n2, &n1n1, &ncpp, &c1, &c2);
    let t2 = transitivity(&n2n2, &ncpp, &nppc, &t1, &c4);
    transitivity(&n2n2, &nppc, &rhs, &t2, &c5s)
}

/// `f[g1][g2]  ==  f[g2 . g1]` for two arguments.
pub fn sym_norm2_comp(f: &Expr, g1: &Expr, g2: &Expr) -> (r: Pf)
    ensures
        r@ == mk_eqv(
            mk_sym_norm2(mk_sym_norm2(*f, *g1), *g2),
            mk_sym_norm2(*f, mk_comp(*g2, *g1)),
        ),
{
    norm2_comp(f, g1, g1, g1, g2, g2, g2)
}

/// `f[id] == f` for one argument: normalizing by the identity map is a
/// no-op.
pub fn sym_norm1_id(f: &Expr) -> (r: Pf)
    ensures
        r@ == mk_eqv(mk_sym_norm1(*f, Expr::FId), *f),
{
    let q = id_q();
    let inv_id = e_inv(Expr::FId);
    let fid = Expr::FId;
    let x = qual_to_eq(&inv_id, &fid, &q);
    let idf = e_comp(Expr::FId, dup_expr(f));
    let c1 = comp_eq_right(&idf, &inv_id, &fid, &x);
    let c2 = comp_id_right(&idf);
    let c3 = comp_id_left(f);
    let lhs = e_comp(dup_expr(&idf), e_inv(Expr::FId));
    let mid = e_comp(dup_expr(&idf), Expr::FId);
    let t1 = transitivity(&lhs, &mid, &idf, &c1, &c2);
    transitivity(&lhs, &idf, f, &t1, &c3)
}

/// `f[id] == f` for two arguments.
pub fn sym_norm2_id(f: &Expr) -> (r: Pf)
    ensures
        r@ == mk_eqv(mk_sym_norm2(*f, Expr::FId), *f),
{
    let fid1 = Expr::FId;
    let c1 = eq_norm2_norm1(f, &fid1, &fid1, &fid1);
    let pi = par_tup_id();
    let pp = e_par_pair(Expr::FId, Expr::FId);
    let fid = Expr::FId;
    let ie = inv_eq(&pp, &fid, &pi);
    let idf = e_comp(Expr::FId, dup_expr(f));
    let inv_pp = e_inv(e_par_pair(Expr::FId, Expr::FId));
    let inv_id = e_inv(Expr::FId);
    let c2 = comp_eq_right(&idf, &inv_pp, &inv_id, &ie);
    let lhs = e_norm2(dup_expr(f), Expr::FId, Expr::FId, Expr::FId);
    let mid = e_comp(dup_expr(&idf), dup_expr(&inv_pp));
    let sn1 = e_comp(dup_expr(&idf), e_inv(Expr::FId));
    let t1 = transitivity(&lhs, &mid, &sn1, &c1, &c2);
    let c3 = sym_norm1_id(f);
    transitivity(&lhs, &sn1, f, &t1, &c3)
}

/// `id[f -> id] == inv(f)`: normalizing the identity function by `f`
/// yields the imaginary inverse of `f`.
pub fn norm1_inv(f: &Expr) -> (r: Pf)
    ensures
        r@ == mk_eqv(mk_norm1(Expr::FId, *f, Expr::FId), mk_inv(*f)),
{
    let fid = Expr::FId;
    let c1 = comp_id_left(&fid);
    let idid = e_comp(Expr::FId, Expr::FId);
    let inv_f = e_inv(dup_expr(f));
    let c2 = comp_eq_left(&idid, &inv_f, &fid, &c1);
    let lhs = e_comp(e_comp(Expr::FId, Expr::FId), e_inv(dup_expr(f)));
    let mid = e_comp(Expr::FId, e_inv(dup_expr(f)));
    let c3 = comp_id_left(&inv_f);
    let t1 = transitivity(&lhs, &mid, &inv_f, &c2, &c3);
    t1
}

// Function extensionality.

/// `~inv(f) ∧ (f : x -> y) ∧ (x -> y)  =>  f ∧ inv(f)`.
pub fn path(f: &Expr, x: &Expr, y: &Expr, qu: &Pf, ty_f: &Pf, pw: &Pf) -> (r: Pf)
    requires
        qu@ == mk_qu(mk_inv(*f)),
        ty_f@ == mk_ty(*f, mk_pow(*y, *x)),
        pw@ == mk_pow(*y, *x),
    ensures
        r@ == mk_and(*f, mk_inv(*f)),
{
    Pf::mk(e_and(dup_expr(f), e_inv(dup_expr(f))))
}

/// Type of the extensionality bridge: applied to a pair of functions it
/// maps a tautological equality to the extensionality type.
pub fn fun_ext_ty(f: &Expr, g: &Expr, x: &Expr, y: &Expr, a: &Expr) -> (r: Pf)
    ensures
        r@ == mk_ty(
            mk_app(Expr::FunExt, mk_tup(*f, *g)),
            mk_pow(mk_fun_ext_ty(*f, *g, *x, *y, *a), mk_tauto(mk_eqv(*f, *g))),
        ),
{
    let subj = e_app(Expr::FunExt, e_tup(dup_expr(f), dup_expr(g)));
    let fet = e_fun_ext_ty(dup_expr(f), dup_expr(g), dup_expr(x), dup_expr(y), dup_expr(a));
    let typ = e_pow(fet, e_tauto(e_eqv(dup_expr(f), dup_expr(g))));
    Pf::mk(e_ty(subj, typ))
}

/// `~inv(fun_ext(f, g))`: the bridge itself has the qubit witness for
/// its inverse, which is what gates the backward conversion.
pub fn qu_inv_fun_ext(f: &Expr, g: &Expr) -> (r: Pf)
    ensures
        r@ == mk_qu(mk_inv(mk_app(Expr::FunExt, mk_tup(*f, *g)))),
{
    Pf::mk(e_qu(e_inv(e_app(Expr::FunExt, e_tup(dup_expr(f), dup_expr(g))))))
}

/// `(a : x) ∧ (f == g)  =>  the pointwise equality observer holds at
/// the triple (f, g, a)`.
pub fn fun_ext_app_eq_from_eq(f: &Expr, g: &Expr, a: &Expr, x: &Expr, ty_a: &Pf, eq: &Pf) -> (r:
    Pf)
    requires
        ty_a@ == mk_ty(*a, *x),
        eq@ == mk_eqv(*f, *g),
    ensures
        r@ == mk_app(
            mk_fun_ext_app_eq(*f, *g, *a, *x),
            mk_tup3(*f, *g, *a),
        ),
{
    let obs = e_fun_ext_app_eq(dup_expr(f), dup_expr(g), dup_expr(a), dup_expr(x));
    let trip = e_tup(dup_expr(f), e_tup(dup_expr(g), dup_expr(a)));
    Pf::mk(e_app(obs, trip))
}

/// `(f == g)^true  =>  fun_ext_ty(f, g)`: the forward conversion of the
/// extensionality bridge.
pub fn fun_ext(f: &Expr, g: &Expr, x: &Expr, y: &Expr, a: &Expr, tauto_eq_fg: &Pf) -> (r: Pf)
    requires
        tauto_eq_fg@ == mk_tauto(mk_eqv(*f, *g)),
    ensures
        r@ == mk_fun_ext_ty(*f, *g, *x, *y, *a),
{
    Pf::mk(e_fun_ext_ty(dup_expr(f), dup_expr(g), dup_expr(x), dup_expr(y), dup_expr(a)))
}

/// `fun_ext_ty(f, g)  =>  (f == g)^true`: the backward conversion,
/// gated by the qubit witness of [`qu_inv_fun_ext`].
pub fn fun_rev_ext(f: &Expr, g: &Expr, x: &Expr, y: &Expr, a: &Expr, p: &Pf) -> (r: Pf)
    requires
        p@ == mk_fun_ext_ty(*f, *g, *x, *y, *a),
    ensures
        r@ == mk_tauto(mk_eqv(*f, *g)),
{
    let _gate = qu_inv_fun_ext(f, g);
    Pf::mk(e_tauto(e_eqv(dup_expr(f), dup_expr(g))))
}

/// `(a : x)  =>  the pointwise equality observer holds at (f, f, a)`.
pub fn fun_ext_app_eq_refl(f: &Expr, a: &Expr, x: &Expr, ty_a: &Pf) -> (r: Pf)
    requires
        ty_a@ == mk_ty(*a, *x),
    ensures
        r@ == mk_app(
            mk_fun_ext_app_eq(*f, *f, *a, *x),
            mk_tup3(*f, *f, *a),
        ),
{
    let rf = refl(f);
    fun_ext_app_eq_from_eq(f, f, a, x, ty_a, &rf)
}

/// `fun_ext_ty(f, f)`: extensionality is reflexive.
pub fn fun_ext_refl(f: &Expr, x: &Expr, y: &Expr, a: &Expr) -> (r: Pf)
    ensures
        r@ == mk_fun_ext_ty(*f, *f, *x, *y, *a),
{
    Pf::mk(e_fun_ext_ty(dup_expr(f), dup_expr(f), dup_expr(x), dup_expr(y), dup_expr(a)))
}

/// `fun_ext_ty(f, g)  =>  fun_ext_ty(g, f)`: symmetry, derived from the
/// two conversions rather than axiomatized.
pub fn fun_ext_symmetry(f: &Expr, g: &Expr, x: &Expr, y: &Expr, a: &Expr, p: &Pf) -> (r: Pf)
    requires
        p@ == mk_fun_ext_ty(*f, *g, *x, *y, *a),
    ensures
        r@ == mk_fun_ext_ty(*g, *f, *x, *y, *a),
{
    let t = fun_rev_ext(f, g, x, y, a, p);
    let ts = tauto_eq_symmetry(f, g, &t);
    fun_ext(g, f, x, y, a, &ts)
}

/// `fun_ext_ty(f, g) ∧ fun_ext_ty(g, h)  =>  fun_ext_ty(f, h)`:
/// transitivity, derived from the two conversions.
pub fn fun_ext_transitivity(
    f: &Expr,
    g: &Expr,
    h: &Expr,
    x: &Expr,
    y: &Expr,
    a: &Expr,
    fun_ext_fg: &Pf,
    fun_ext_gh: &Pf,
) -> (r: Pf)
    requires
        fun_ext_fg@ == mk_fun_ext_ty(*f, *g, *x, *y, *a),
        fun_ext_gh@ == mk_fun_ext_ty(*g, *h, *x, *y, *a),
    ensures
        r@ == mk_fun_ext_ty(*f, *h, *x, *y, *a),
{
    let t1 = fun_rev_ext(f, g, x, y, a, fun_ext_fg);
    let t2 = fun_rev_ext(g, h, x, y, a, fun_ext_gh);
    let t3 = tauto_eq_transitivity(f, g, h, &t1, &t2);
    fun_ext(f, h, x, y, a, &t3)
}

/// The inverse round trip: starting from the equation `f(a) == b`,
/// computing the inverse equation gives `inv(f)(b) == a`; computing the
/// inverse equation of that gives `inv(inv(f))(a) == b`; transporting
/// along the involution `inv(inv(f))(a) == f(a)` reproduces the starting
/// equation exactly.  The lemma states the final transport step: chaining
/// the commuted involution instance with the doubled equation yields the
/// original.
pub proof fn lemma_inv_round_trip(f: Expr, a: Expr, b: Expr)
    ensures
        eq_trans_c(
            eq_sym_c(mk_eqv(mk_app(mk_inv(mk_inv(f)), a), mk_app(f, a))),
            mk_eqv(mk_app(mk_inv(mk_inv(f)), a), b),
        ) == mk_eqv(mk_app(f, a), b),
{
}

} // verus!
