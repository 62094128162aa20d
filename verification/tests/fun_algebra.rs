//! Tests for the functional algebra: application, the imaginary inverse
//! and its round trip, composition, binders, normalization and the
//! extensionality bridge.

use prop::eq::{commute, transitivity};
use prop::expr::{
    dup_expr, e_and, e_app, e_comp, e_eqv, e_imp, e_inv, e_isconst, e_lam, e_not, e_pord,
    e_qu, e_qual, e_subst, e_tauto, e_tup, e_ty, e_var, eq_expr, Expr,
};
use prop::fun::{
    app_map_eq, comp_assoc, comp_id_left, comp_id_right, dup_def, e_fun_ext_ty, e_lam_id,
    e_norm1, e_norm2, e_par_pair, fst_def, fun_ext, fun_ext_refl, fun_ext_symmetry,
    fun_ext_transitivity, fun_rev_ext, id_def, id_q, inv_qu, inv_val, inv_val_other,
    inv_val_qu, involve_eq, lam, lam_fst, lam_id, lam_snd, norm1_inv, par_tup_def, snd_def,
    subst_trivial, sym_norm1_comp, sym_norm1_id, sym_norm2_comp, sym_norm2_id, tup3_trd,
    tup_const, ty_is_const, type_imply, type_is_const, type_ty,
};
use prop::pf::Pf;

#[test]
fn defining_equations_of_named_functions() {
    let a = e_var(1);
    let b = e_var(2);
    assert!(eq_expr(
        id_def(&a).conclusion(),
        &e_eqv(e_app(Expr::FId, dup_expr(&a)), dup_expr(&a))
    ));
    assert!(eq_expr(
        dup_def(&a).conclusion(),
        &e_eqv(
            e_app(Expr::Dup, dup_expr(&a)),
            e_tup(dup_expr(&a), dup_expr(&a))
        )
    ));
    assert!(eq_expr(
        fst_def(&a, &b).conclusion(),
        &e_eqv(
            e_app(Expr::Fst, e_tup(dup_expr(&a), dup_expr(&b))),
            dup_expr(&a)
        )
    ));
    assert!(eq_expr(
        snd_def(&a, &b).conclusion(),
        &e_eqv(
            e_app(Expr::Snd, e_tup(dup_expr(&a), dup_expr(&b))),
            dup_expr(&b)
        )
    ));
}

#[test]
fn inverse_equation_round_trip_reproduces_the_original() {
    let f = e_var(7);
    let a = e_var(1);
    let b = e_var(2);
    let inv_f = e_inv(dup_expr(&f));
    let qu = Pf::hyp(&e_qu(dup_expr(&inv_f)));
    let eqn = Pf::hyp(&e_eqv(e_app(dup_expr(&f), dup_expr(&a)), dup_expr(&b)));
    // forward: compute the inverse equation.
    let c1 = inv_val_qu(&f, &a, &b, &qu, &eqn);
    assert!(eq_expr(
        c1.conclusion(),
        &e_eqv(e_app(dup_expr(&inv_f), dup_expr(&b)), dup_expr(&a))
    ));
    // again on the inverse: needs the doubled qubit witness.
    let qu2 = inv_qu(&inv_f, &qu);
    let c2 = inv_val_qu(&inv_f, &b, &a, &qu2, &c1);
    let inv_inv_f = e_inv(e_inv(dup_expr(&f)));
    assert!(eq_expr(
        c2.conclusion(),
        &e_eqv(e_app(dup_expr(&inv_inv_f), dup_expr(&a)), dup_expr(&b))
    ));
    // transport along the involution to reproduce the starting equation.
    let ie = involve_eq(&f);
    let am = app_map_eq(&inv_inv_f, &f, &a, &ie);
    let app_ii = e_app(dup_expr(&inv_inv_f), dup_expr(&a));
    let app_f = e_app(dup_expr(&f), dup_expr(&a));
    let sym = commute(&app_ii, &app_f, &am);
    let fin = transitivity(&app_f, &app_ii, &b, &sym, &c2);
    assert!(eq_expr(fin.conclusion(), eqn.conclusion()));
}

#[test]
fn inverse_from_quality_witness() {
    let f = e_var(7);
    let g = e_var(8);
    let a = e_var(1);
    let b = e_var(2);
    let q = Pf::hyp(&e_qual(e_inv(dup_expr(&f)), dup_expr(&g)));
    let eqn = Pf::hyp(&e_eqv(e_app(dup_expr(&f), dup_expr(&a)), dup_expr(&b)));
    let r = inv_val(&f, &g, &a, &b, &q, &eqn);
    assert!(eq_expr(
        r.conclusion(),
        &e_eqv(e_app(e_inv(dup_expr(&f)), dup_expr(&b)), dup_expr(&a))
    ));
    let s = inv_val_other(&f, &g, &a, &b, &q, &eqn);
    assert!(eq_expr(
        s.conclusion(),
        &e_eqv(e_app(dup_expr(&g), dup_expr(&b)), dup_expr(&a))
    ));
}

#[test]
fn composition_laws() {
    let f = e_var(1);
    let g = e_var(2);
    let h = e_var(3);
    assert!(eq_expr(
        comp_assoc(&f, &g, &h).conclusion(),
        &e_eqv(
            e_comp(dup_expr(&h), e_comp(dup_expr(&g), dup_expr(&f))),
            e_comp(e_comp(dup_expr(&h), dup_expr(&g)), dup_expr(&f))
        )
    ));
    assert!(eq_expr(
        comp_id_left(&f).conclusion(),
        &e_eqv(e_comp(Expr::FId, dup_expr(&f)), dup_expr(&f))
    ));
    assert!(eq_expr(
        comp_id_right(&f).conclusion(),
        &e_eqv(e_comp(dup_expr(&f), Expr::FId), dup_expr(&f))
    ));
}

#[test]
fn normalizing_twice_equals_normalizing_by_the_composite() {
    let fid = Expr::FId;
    let g = e_var(1);
    let h = e_var(2);
    let r = sym_norm1_comp(&fid, &g, &h);
    let lhs = e_norm1(
        e_norm1(Expr::FId, dup_expr(&g), dup_expr(&g)),
        dup_expr(&h),
        dup_expr(&h),
    );
    let hg = e_comp(dup_expr(&h), dup_expr(&g));
    let rhs = e_norm1(Expr::FId, dup_expr(&hg), dup_expr(&hg));
    assert!(eq_expr(r.conclusion(), &e_eqv(lhs, rhs)));
    let r2 = sym_norm2_comp(&fid, &g, &h);
    let lhs2 = e_norm2(
        e_norm2(Expr::FId, dup_expr(&g), dup_expr(&g), dup_expr(&g)),
        dup_expr(&h),
        dup_expr(&h),
        dup_expr(&h),
    );
    let rhs2 = e_norm2(Expr::FId, dup_expr(&hg), dup_expr(&hg), dup_expr(&hg));
    assert!(eq_expr(r2.conclusion(), &e_eqv(lhs2, rhs2)));
}

#[test]
fn normalizing_by_identity_is_a_no_op() {
    let f = e_var(1);
    assert!(eq_expr(
        sym_norm1_id(&f).conclusion(),
        &e_eqv(e_norm1(dup_expr(&f), Expr::FId, Expr::FId), dup_expr(&f))
    ));
    assert!(eq_expr(
        sym_norm2_id(&f).conclusion(),
        &e_eqv(
            e_norm2(dup_expr(&f), Expr::FId, Expr::FId, Expr::FId),
            dup_expr(&f)
        )
    ));
}

#[test]
fn normalizing_identity_yields_the_inverse() {
    let f = e_var(1);
    assert!(eq_expr(
        norm1_inv(&f).conclusion(),
        &e_eqv(
            e_norm1(Expr::FId, dup_expr(&f), Expr::FId),
            e_inv(dup_expr(&f))
        )
    ));
}

#[test]
fn beta_reduction_and_identity_binder() {
    let a = e_var(1);
    let b = e_var(2);
    let c = e_var(3);
    let x = e_var(4);
    let ty_c = Pf::hyp(&e_ty(dup_expr(&c), dup_expr(&x)));
    let beta = lam(&a, &b, &x, &c, &ty_c);
    assert!(eq_expr(
        beta.conclusion(),
        &e_eqv(
            e_app(
                e_lam(e_ty(dup_expr(&a), dup_expr(&x)), dup_expr(&b)),
                dup_expr(&c)
            ),
            e_subst(dup_expr(&b), dup_expr(&a), dup_expr(&c))
        )
    ));
    let li = lam_id(&a, &b, &x);
    assert!(eq_expr(
        li.conclusion(),
        &e_eqv(
            e_app(e_lam_id(dup_expr(&a), dup_expr(&x)), dup_expr(&b)),
            dup_expr(&b)
        )
    ));
    assert!(eq_expr(
        subst_trivial(&a, &b).conclusion(),
        &e_eqv(e_subst(dup_expr(&a), dup_expr(&a), dup_expr(&b)), dup_expr(&b))
    ));
}

#[test]
fn projection_binders_reduce_under_substitution() {
    let a = e_var(1);
    let b = e_var(2);
    let c = e_var(3);
    let x = e_var(4);
    let y = e_var(5);
    let ty_c = Pf::hyp(&e_ty(dup_expr(&c), dup_expr(&x)));
    let first = lam_fst(&a, &x, &b, &y, &c, &ty_c);
    let head = e_ty(
        dup_expr(&b),
        e_subst(dup_expr(&y), dup_expr(&a), dup_expr(&c)),
    );
    let lam_fst_e = e_lam(
        e_ty(dup_expr(&a), dup_expr(&x)),
        e_lam(e_ty(dup_expr(&b), dup_expr(&y)), dup_expr(&a)),
    );
    assert!(eq_expr(
        first.conclusion(),
        &e_eqv(
            e_app(lam_fst_e, dup_expr(&c)),
            e_lam(dup_expr(&head), dup_expr(&c))
        )
    ));
    let second = lam_snd(&a, &b, &c, &x, &y, &ty_c);
    let lam_snd_e = e_lam(
        e_ty(dup_expr(&a), dup_expr(&x)),
        e_lam_id(dup_expr(&b), dup_expr(&y)),
    );
    assert!(eq_expr(
        second.conclusion(),
        &e_eqv(
            e_app(lam_snd_e, dup_expr(&c)),
            e_lam(dup_expr(&head), dup_expr(&b))
        )
    ));
}

#[test]
fn parallel_tuple_computes_componentwise() {
    let f = e_var(1);
    let g = e_var(2);
    let i0 = e_var(3);
    let i1 = e_var(4);
    let o0 = e_var(5);
    let o1 = e_var(6);
    let eq0 = Pf::hyp(&e_eqv(e_app(dup_expr(&f), dup_expr(&i0)), dup_expr(&o0)));
    let eq1 = Pf::hyp(&e_eqv(e_app(dup_expr(&g), dup_expr(&i1)), dup_expr(&o1)));
    let r = par_tup_def(&f, &g, &i0, &i1, &o0, &o1, &eq0, &eq1);
    assert!(eq_expr(
        r.conclusion(),
        &e_eqv(
            e_app(
                e_par_pair(dup_expr(&f), dup_expr(&g)),
                e_tup(dup_expr(&i0), dup_expr(&i1))
            ),
            e_tup(dup_expr(&o0), dup_expr(&o1))
        )
    ));
}

#[test]
fn universe_levels_ascend() {
    let p = Pf::hyp(&Expr::TypeU(3));
    let up = type_imply(3, &p);
    assert!(eq_expr(up.conclusion(), &Expr::TypeU(4)));
    assert!(eq_expr(
        type_is_const(0).conclusion(),
        &e_isconst(Expr::TypeU(0))
    ));
    let t = type_ty(0);
    assert!(eq_expr(
        t.conclusion(),
        &e_and(
            e_imp(Expr::TypeU(0), Expr::TypeU(1)),
            e_pord(Expr::TypeU(0), Expr::TypeU(1))
        )
    ));
}

#[test]
fn constancy_propagates_through_judgements() {
    let a = e_var(1);
    let b = e_var(2);
    let pa = Pf::hyp(&e_isconst(dup_expr(&a)));
    let pb = Pf::hyp(&e_isconst(dup_expr(&b)));
    let t = ty_is_const(&a, &b, &pa, &pb);
    assert!(eq_expr(
        t.conclusion(),
        &e_isconst(e_ty(dup_expr(&a), dup_expr(&b)))
    ));
    let tc = Pf::hyp(&e_isconst(e_tup(dup_expr(&a), dup_expr(&b))));
    let split = tup_const(&a, &b, &tc);
    assert!(eq_expr(
        split.conclusion(),
        &e_and(e_isconst(dup_expr(&a)), e_isconst(dup_expr(&b)))
    ));
}

#[test]
fn triple_projection_reaches_the_last_component() {
    let a = e_var(1);
    let b = e_var(2);
    let c = e_var(3);
    let x = e_var(4);
    let y = e_var(5);
    let z = e_var(6);
    let subj = e_tup(dup_expr(&a), e_tup(dup_expr(&b), dup_expr(&c)));
    let typ = e_tup(dup_expr(&x), e_tup(dup_expr(&y), dup_expr(&z)));
    let p = Pf::hyp(&e_ty(subj, typ));
    let r = tup3_trd(&a, &b, &c, &x, &y, &z, &p);
    assert!(eq_expr(r.conclusion(), &e_ty(dup_expr(&c), dup_expr(&z))));
}

#[test]
fn identity_is_its_own_inverse() {
    let q = id_q();
    assert!(eq_expr(
        q.conclusion(),
        &e_qual(e_inv(Expr::FId), Expr::FId)
    ));
}

#[test]
fn extensionality_conversions_round_trip() {
    let f = e_var(1);
    let g = e_var(2);
    let h = e_var(3);
    let x = e_var(4);
    let y = e_var(5);
    let a = e_var(6);
    let te = Pf::hyp(&e_tauto(e_eqv(dup_expr(&f), dup_expr(&g))));
    let fe = fun_ext(&f, &g, &x, &y, &a, &te);
    assert!(eq_expr(
        fe.conclusion(),
        &e_fun_ext_ty(
            dup_expr(&f),
            dup_expr(&g),
            dup_expr(&x),
            dup_expr(&y),
            dup_expr(&a)
        )
    ));
    let back = fun_rev_ext(&f, &g, &x, &y, &a, &fe);
    assert!(eq_expr(back.conclusion(), te.conclusion()));
    // the equivalence laws, derived from the conversions, agree with the
    // direct constructions.
    let sym = fun_ext_symmetry(&f, &g, &x, &y, &a, &fe);
    assert!(eq_expr(
        sym.conclusion(),
        &e_fun_ext_ty(
            dup_expr(&g),
            dup_expr(&f),
            dup_expr(&x),
            dup_expr(&y),
            dup_expr(&a)
        )
    ));
    let refl = fun_ext_refl(&f, &x, &y, &a);
    assert!(eq_expr(
        refl.conclusion(),
        &e_fun_ext_ty(
            dup_expr(&f),
            dup_expr(&f),
            dup_expr(&x),
            dup_expr(&y),
            dup_expr(&a)
        )
    ));
    let gh = Pf::hyp(&e_fun_ext_ty(
        dup_expr(&g),
        dup_expr(&h),
        dup_expr(&x),
        dup_expr(&y),
        dup_expr(&a),
    ));
    let chained = fun_ext_transitivity(&f, &g, &h, &x, &y, &a, &fe, &gh);
    assert!(eq_expr(
        chained.conclusion(),
        &e_fun_ext_ty(
            dup_expr(&f),
            dup_expr(&h),
            dup_expr(&x),
            dup_expr(&y),
            dup_expr(&a)
        )
    ));
}

#[test]
fn negated_expressions_are_implications_into_false() {
    let a = e_var(1);
    assert!(eq_expr(&e_not(dup_expr(&a)), &e_imp(dup_expr(&a), Expr::Fls)));
}
