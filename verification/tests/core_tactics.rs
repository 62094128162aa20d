//! Tests for the AND and EQ tactics: round trips, exclusion, De Morgan,
//! and the boundary projections.

use prop::and::{
    assoc, distrib, exc_both, exc_left, exc_right, false_arg, from_de_morgan, from_imply,
    in_left, in_left_arg, in_right, in_right_arg, rev_assoc, rev_distrib, symmetry, to_de_morgan,
    to_eq_neg, to_eq_pos, to_imply, to_or, true_arg,
};
use prop::eq::{
    commute, double_neg, imply_to_or, is_false, is_true, modus_tollens, refl,
    rev_modus_tollens, transitivity,
};
use prop::expr::{
    dup_expr, e_and, e_eqv, e_imp, e_not, e_or, e_pow, e_var, eq_expr, Expr,
};
use prop::pf::Pf;

#[test]
fn commute_twice_reproduces_conjunction() {
    let a = e_var(1);
    let b = e_var(2);
    let ab = e_and(dup_expr(&a), dup_expr(&b));
    let p = Pf::hyp(&ab);
    let q = symmetry(&a, &b, &p);
    assert!(eq_expr(q.conclusion(), &e_and(dup_expr(&b), dup_expr(&a))));
    let r = symmetry(&b, &a, &q);
    assert!(eq_expr(r.conclusion(), &ab));
}

#[test]
fn assoc_round_trip_reproduces_proof() {
    let a = e_var(1);
    let b = e_var(2);
    let c = e_var(3);
    let e = e_and(e_and(dup_expr(&a), dup_expr(&b)), dup_expr(&c));
    let p = Pf::hyp(&e);
    let s = assoc(&a, &b, &c, &p);
    assert!(eq_expr(
        s.conclusion(),
        &e_and(dup_expr(&a), e_and(dup_expr(&b), dup_expr(&c)))
    ));
    let t = rev_assoc(&a, &b, &c, &s);
    assert!(eq_expr(t.conclusion(), &e));
}

#[test]
fn distrib_round_trip_reproduces_proof() {
    let a = e_var(1);
    let b = e_var(2);
    let c = e_var(3);
    let e = e_and(dup_expr(&a), e_or(dup_expr(&b), dup_expr(&c)));
    let p = Pf::hyp(&e);
    let d = distrib(&a, &b, &c, &p);
    let expected = e_or(
        e_and(dup_expr(&a), dup_expr(&b)),
        e_and(dup_expr(&a), dup_expr(&c)),
    );
    assert!(eq_expr(d.conclusion(), &expected));
    let back = rev_distrib(&a, &b, &c, &d);
    assert!(eq_expr(back.conclusion(), &e));
}

#[test]
fn rev_distrib_round_trip_reproduces_proof() {
    let a = e_var(1);
    let b = e_var(2);
    let c = e_var(3);
    let e = e_or(
        e_and(dup_expr(&a), dup_expr(&b)),
        e_and(dup_expr(&a), dup_expr(&c)),
    );
    let p = Pf::hyp(&e);
    let u = rev_distrib(&a, &b, &c, &p);
    let again = distrib(&a, &b, &c, &u);
    assert!(eq_expr(again.conclusion(), &e));
}

#[test]
fn de_morgan_round_trip_reproduces_both_components() {
    let a = e_var(1);
    let b = e_var(2);
    let e = e_and(e_not(dup_expr(&a)), e_not(dup_expr(&b)));
    let p = Pf::hyp(&e);
    let to = to_de_morgan(&a, &b, &p);
    assert!(eq_expr(
        to.conclusion(),
        &e_not(e_or(dup_expr(&a), dup_expr(&b)))
    ));
    let back = from_de_morgan(&a, &b, &to);
    assert!(eq_expr(back.conclusion(), &e));
}

#[test]
fn exclusion_tactics_project_the_live_branch() {
    let a = e_var(1);
    let b = e_var(2);
    let left = Pf::hyp(&e_and(
        e_not(dup_expr(&a)),
        e_or(dup_expr(&a), dup_expr(&b)),
    ));
    assert!(eq_expr(exc_left(&a, &b, &left).conclusion(), &b));
    let right = Pf::hyp(&e_and(
        e_not(dup_expr(&b)),
        e_or(dup_expr(&a), dup_expr(&b)),
    ));
    assert!(eq_expr(exc_right(&a, &b, &right).conclusion(), &a));
    let both = Pf::hyp(&e_and(
        e_and(e_not(dup_expr(&a)), e_not(dup_expr(&b))),
        e_or(dup_expr(&a), dup_expr(&b)),
    ));
    assert!(eq_expr(exc_both(&a, &b, &both).conclusion(), &Expr::Fls));
}

#[test]
fn false_arg_hands_back_the_false_witness() {
    let a = e_var(1);
    let p = Pf::hyp(&e_and(Expr::Fls, dup_expr(&a)));
    assert!(eq_expr(false_arg(&a, &p).conclusion(), &Expr::Fls));
    let q = Pf::hyp(&e_and(Expr::Tru, dup_expr(&a)));
    assert!(eq_expr(true_arg(&a, &q).conclusion(), &a));
}

#[test]
fn in_arg_tactics_rewrite_one_operand() {
    let a = e_var(1);
    let b = e_var(2);
    let c = e_var(3);
    let p = Pf::hyp(&e_and(dup_expr(&a), dup_expr(&b)));
    let g = Pf::hyp(&e_imp(dup_expr(&a), dup_expr(&c)));
    let r = in_left_arg(&a, &b, &c, &p, &g);
    assert!(eq_expr(r.conclusion(), &e_and(dup_expr(&c), dup_expr(&b))));
    let h = Pf::hyp(&e_imp(dup_expr(&b), dup_expr(&c)));
    let s = in_right_arg(&a, &b, &c, &p, &h);
    assert!(eq_expr(s.conclusion(), &e_and(dup_expr(&a), dup_expr(&c))));
    let f = Pf::hyp(&e_pow(dup_expr(&c), dup_expr(&a)));
    let t = in_left(&a, &b, &c, &p, &f);
    assert!(eq_expr(t.conclusion(), &e_and(dup_expr(&c), dup_expr(&b))));
    let f2 = Pf::hyp(&e_pow(dup_expr(&c), dup_expr(&b)));
    let u = in_right(&a, &b, &c, &p, &f2);
    assert!(eq_expr(u.conclusion(), &e_and(dup_expr(&a), dup_expr(&c))));
}

#[test]
fn imply_conversions() {
    let a = e_var(1);
    let b = e_var(2);
    let ni = Pf::hyp(&e_not(e_imp(dup_expr(&a), dup_expr(&b))));
    let dec = Pf::hyp(&e_or(dup_expr(&a), e_not(dup_expr(&a))));
    let r = from_imply(&a, &b, &ni, &dec);
    assert!(eq_expr(
        r.conclusion(),
        &e_and(dup_expr(&a), e_not(dup_expr(&b)))
    ));
    let back = to_imply(&a, &b, &r);
    assert!(eq_expr(back.conclusion(), ni.conclusion()));
}

#[test]
fn conjunction_to_equality_and_disjunction() {
    let a = e_var(1);
    let b = e_var(2);
    let p = Pf::hyp(&e_and(dup_expr(&a), dup_expr(&b)));
    let pos = to_eq_pos(&a, &b, &p);
    assert!(eq_expr(
        pos.conclusion(),
        &e_eqv(dup_expr(&a), dup_expr(&b))
    ));
    let n = Pf::hyp(&e_and(e_not(dup_expr(&a)), e_not(dup_expr(&b))));
    let neg = to_eq_neg(&a, &b, &n);
    assert!(eq_expr(
        neg.conclusion(),
        &e_eqv(dup_expr(&a), dup_expr(&b))
    ));
    let o = to_or(&a, &b, &p);
    assert!(eq_expr(o.conclusion(), &e_or(dup_expr(&a), dup_expr(&b))));
}

#[test]
fn eq_is_an_equivalence() {
    let a = e_var(1);
    let b = e_var(2);
    let c = e_var(3);
    let p = Pf::hyp(&e_eqv(dup_expr(&a), dup_expr(&b)));
    let q = Pf::hyp(&e_eqv(dup_expr(&b), dup_expr(&c)));
    let t = transitivity(&a, &b, &c, &p, &q);
    assert!(eq_expr(t.conclusion(), &e_eqv(dup_expr(&a), dup_expr(&c))));
    // commuting the chain agrees with chaining the commuted parts.
    let left = commute(&a, &c, &t);
    let qc = commute(&b, &c, &q);
    let pc = commute(&a, &b, &p);
    let right = transitivity(&c, &b, &a, &qc, &pc);
    assert!(eq_expr(left.conclusion(), right.conclusion()));
    // reflexivity is a unit for the chain.
    let ra = refl(&a);
    let t2 = transitivity(&a, &a, &b, &ra, &p);
    assert!(eq_expr(t2.conclusion(), p.conclusion()));
}

#[test]
fn modus_tollens_round_trip() {
    let a = e_var(1);
    let b = e_var(2);
    let p = Pf::hyp(&e_eqv(dup_expr(&a), dup_expr(&b)));
    let mt = modus_tollens(&a, &b, &p);
    assert!(eq_expr(
        mt.conclusion(),
        &e_eqv(e_not(dup_expr(&b)), e_not(dup_expr(&a)))
    ));
    let back = rev_modus_tollens(&b, &a, &mt);
    assert!(eq_expr(back.conclusion(), &e_eqv(dup_expr(&a), dup_expr(&b))));
}

#[test]
fn double_neg_and_imply_to_or() {
    let a = e_var(1);
    let b = e_var(2);
    let pa = Pf::hyp(&a);
    let dn = double_neg(&a, &pa);
    assert!(eq_expr(
        dn.conclusion(),
        &e_eqv(dup_expr(&a), e_not(e_not(dup_expr(&a))))
    ));
    let io = imply_to_or(&a, &b);
    assert!(eq_expr(
        io.conclusion(),
        &e_eqv(
            e_imp(dup_expr(&a), dup_expr(&b)),
            e_or(e_not(dup_expr(&a)), dup_expr(&b))
        )
    ));
}

#[test]
fn boundary_projections() {
    let a = e_var(1);
    let t = Pf::hyp(&e_eqv(Expr::Tru, dup_expr(&a)));
    assert!(eq_expr(is_true(&a, &t).conclusion(), &a));
    let f = Pf::hyp(&e_eqv(Expr::Fls, dup_expr(&a)));
    assert!(eq_expr(is_false(&a, &f).conclusion(), &e_not(dup_expr(&a))));
}

#[test]
fn expression_equality_distinguishes_shapes() {
    let a = e_var(1);
    let b = e_var(2);
    assert!(!eq_expr(&a, &b));
    assert!(!eq_expr(&e_and(dup_expr(&a), dup_expr(&b)), &e_or(dup_expr(&a), dup_expr(&b))));
    assert!(eq_expr(&dup_expr(&a), &a));
    let p = Pf::hyp(&a);
    assert!(eq_expr(p.dup().conclusion(), &a));
}
