//! A constructive proof calculus for propositional logic, with a path
//! semantical layer and a functional algebra on top of it.
//!
//! Propositions are modelled as syntax trees ([`expr::Expr`]), and proofs as
//! opaque tokens ([`pf::Pf`]) that carry the proposition they establish.
//! A token can only be minted by the sanctioned inference rules of this
//! crate (and by [`pf::Pf::hyp`], which introduces an explicit hypothesis),
//! so that a proof value exists only for conclusions the calculus derives
//! from the hypotheses that were introduced.
//!
//! Every rule states in its contract exactly which proposition it concludes,
//! as a function of its premises, so that laws about combinations of rules
//! (round trips, involutions, compositions) are proved once and for all.

pub mod and;
pub mod eq;
pub mod expr;
pub mod fun;
pub mod path_semantics;
pub mod pf;
pub mod sem;
