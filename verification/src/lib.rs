//! Associative aggregate queries over ordered sequences.
//!
//! An operator is described by the algebraic laws it obeys ([`algebra`]); a
//! range structure ([`structure::ranged`]) is generic over the operator and
//! asks for exactly the laws its algorithm relies on.
//!
//! Every structure stands for a sequence, which is its view, and every
//! contract is stated over that sequence: a query returns the fold
//! ([`algebra::fold`]) of a part of it, an update replaces one of its
//! elements. Elements are taken by their own view, and the laws of an
//! operator are laws on those views, proved where the operator is
//! implemented.
pub mod algebra;
pub mod structure;
