//! Tests for the path semantical order and the core axiom tactics.

use prop::expr::{dup_expr, e_and, e_eqv, e_imp, e_or, e_var, eq_expr, Expr};
use prop::path_semantics::{
    comp, e_pand_fst, e_pand_snd, e_psem, pand_join, to_pand_fst, to_pand_snd, POrdProof,
};
use prop::pf::Pf;

#[test]
fn structural_rule_orders_compound_over_operands() {
    let a = e_var(1);
    let b = e_var(2);
    let ab = e_and(dup_expr(&a), dup_expr(&b));
    let left = POrdProof::new(&ab, &a);
    assert!(eq_expr(left.upper_ref(), &ab));
    assert!(eq_expr(left.lower_ref(), &a));
    let right = POrdProof::new(&ab, &b);
    assert!(eq_expr(right.lower_ref(), &b));
    let disj = e_or(dup_expr(&a), dup_expr(&b));
    let by_or = POrdProof::new(&disj, &a);
    assert!(eq_expr(by_or.upper_ref(), &disj));
    let imp = e_imp(dup_expr(&a), dup_expr(&b));
    let by_imp = POrdProof::new(&imp, &b);
    assert!(eq_expr(by_imp.lower_ref(), &b));
}

#[test]
fn truth_stands_above_falsehood() {
    let tru = Expr::Tru;
    let fls = Expr::Fls;
    let conv = POrdProof::new(&tru, &fls);
    assert!(eq_expr(conv.upper_ref(), &Expr::Tru));
    assert!(eq_expr(conv.lower_ref(), &Expr::Fls));
}

#[test]
fn order_transitivity_spans_two_steps() {
    let a = e_var(1);
    let b = e_var(2);
    let c = e_var(3);
    let bc = e_and(dup_expr(&b), dup_expr(&c));
    let top = e_and(dup_expr(&a), dup_expr(&bc));
    let upper = POrdProof::new(&top, &bc);
    let lower = POrdProof::new(&bc, &c);
    let span = upper.transitivity(&lower);
    assert!(eq_expr(span.upper_ref(), &top));
    assert!(eq_expr(span.lower_ref(), &c));
}

#[test]
fn order_transport_along_equalities() {
    let a = e_var(1);
    let b = e_var(2);
    let v = e_var(3);
    let ab = e_and(dup_expr(&a), dup_expr(&b));
    let ord = POrdProof::new(&ab, &a);
    let eq_left = Pf::hyp(&e_eqv(dup_expr(&ab), dup_expr(&v)));
    let moved = ord.by_eq_left(&v, &eq_left);
    assert!(eq_expr(moved.upper_ref(), &v));
    assert!(eq_expr(moved.lower_ref(), &a));
    let eq_right = Pf::hyp(&e_eqv(dup_expr(&a), dup_expr(&v)));
    let moved2 = ord.by_eq_right(&v, &eq_right);
    assert!(eq_expr(moved2.upper_ref(), &ab));
    assert!(eq_expr(moved2.lower_ref(), &v));
}

#[test]
fn core_axiom_instances_compose() {
    let f1 = e_var(1);
    let f2 = e_var(2);
    let f3 = e_var(3);
    let f4 = e_var(4);
    let x1 = e_var(5);
    let x2 = e_var(6);
    let f = Pf::hyp(&e_psem(&f1, &f2, &f3, &f4));
    let g = Pf::hyp(&e_psem(&f3, &f4, &x1, &x2));
    let ord_f = ord_from_eq(&f1, &f3);
    let ord_x = ord_from_eq(&f3, &x1);
    let f1_f3 = Pf::hyp(&e_imp(dup_expr(&f1), dup_expr(&f3)));
    let f2_f4 = Pf::hyp(&e_imp(dup_expr(&f2), dup_expr(&f4)));
    let f3_x1 = Pf::hyp(&e_imp(dup_expr(&f3), dup_expr(&x1)));
    let f4_x2 = Pf::hyp(&e_imp(dup_expr(&f4), dup_expr(&x2)));
    let spanned = comp(
        &f1, &f2, &f3, &f4, &x1, &x2, &f, &g, &ord_f, &ord_x, &f1_f3, &f2_f4, &f3_x1, &f4_x2,
    );
    assert!(eq_expr(spanned.conclusion(), &e_psem(&f1, &f2, &x1, &x2)));
}

/// Order evidence for two expressions, built by the structural rule on a
/// conjunction that has the upper expression on its left, then moved to
/// the upper expression itself by equality transport of a hypothesis.
fn ord_from_eq(t: &Expr, u: &Expr) -> POrdProof {
    let tu = e_and(dup_expr(t), dup_expr(u));
    let base = POrdProof::new(&tu, u);
    let eq = Pf::hyp(&e_eqv(dup_expr(&tu), dup_expr(t)));
    base.by_eq_left(t, &eq)
}

#[test]
fn pand_projections_rejoin_into_core_axiom() {
    let a = e_var(1);
    let b = e_var(2);
    let c = e_var(3);
    let d = e_var(4);
    let ab = e_and(dup_expr(&a), dup_expr(&b));
    let p_fst = Pf::hyp(&e_psem(&ab, &c, &a, &d));
    let p_snd = Pf::hyp(&e_psem(&ab, &c, &b, &d));
    let fst = to_pand_fst(&a, &b, &c, &d, &p_fst);
    assert!(eq_expr(fst.conclusion(), &e_pand_fst(&a, &b, &c, &d)));
    let snd = to_pand_snd(&a, &b, &c, &d, &p_snd);
    assert!(eq_expr(snd.conclusion(), &e_pand_snd(&a, &b, &c, &d)));
    let joined = pand_join(&a, &b, &c, &d, &fst, &snd);
    assert!(eq_expr(joined.conclusion(), &e_psem(&ab, &c, &ab, &d)));
}
