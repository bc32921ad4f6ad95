//! A verified constraint-system core for proving, in zero knowledge, that a
//! playing card's attributes (quantity, suite, rank) lie in fixed enumerated
//! domains and match a publicly known triple.
//!
//! The crate models circuit columns, selectors and gates as plain data,
//! compiles enumerated-domain vanishing-polynomial constraints, binds a
//! concrete witness to a single-row region, and checks satisfiability of the
//! resulting instance. Cryptographic commitments, key generation and proof
//! generation are supplied by an external proving backend and reached through
//! a small set of trusted declarations.

pub mod field;
pub mod expr;
pub mod registry;
pub mod gate;
pub mod card;
pub mod check;
pub mod backend;
