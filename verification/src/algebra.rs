//! The algebraic capability model.
//!
//! An operator is a type `T` that implements some of the traits below for an
//! element type `E`. Every law is stated over the mathematical view `E::V` of
//! the elements, and an implementation has to prove it.
use vstd::prelude::*;

pub mod fold;
pub mod typical;

verus! {

/// A closed binary operator on `E`.
pub trait Magma<E: View> {
    /// What `op` computes, on views.
    spec fn op_spec(lhs: E::V, rhs: E::V) -> E::V;

    /// Combines `lhs` with `rhs`, in this order.
    fn op(lhs: &E, rhs: &E) -> (res: E)
        ensures
            res@ == Self::op_spec(lhs@, rhs@),
    ;
}

/// The operator is associative.
pub trait Semigroup<E: View>: Magma<E> {
    /// `(a op b) op c == a op (b op c)`.
    proof fn associative(a: E::V, b: E::V, c: E::V)
        ensures
            Self::op_spec(Self::op_spec(a, b), c) == Self::op_spec(a, Self::op_spec(b, c)),
    ;
}

/// The operator is associative and has an identity element.
pub trait Monoid<E: View>: Semigroup<E> {
    /// The identity element, as a view.
    spec fn id_spec() -> E::V;

    /// Returns the identity element.
    fn id() -> (res: E)
        ensures
            res@ == Self::id_spec(),
    ;

    /// `id op a == a op id == a`.
    proof fn identity(a: E::V)
        ensures
            Self::op_spec(Self::id_spec(), a) == a,
            Self::op_spec(a, Self::id_spec()) == a,
    ;
}

/// The operator has an identity and every element has an inverse.
pub trait Group<E: View>: Monoid<E> {
    /// The inverse of an element, on views.
    spec fn inv_spec(elm: E::V) -> E::V;

    /// Returns the inverse of `elm`.
    fn inv(elm: &E) -> (res: E)
        ensures
            res@ == Self::inv_spec(elm@),
    ;

    /// `a op inv(a) == inv(a) op a == id`.
    proof fn inverse(a: E::V)
        ensures
            Self::op_spec(a, Self::inv_spec(a)) == Self::id_spec(),
            Self::op_spec(Self::inv_spec(a), a) == Self::id_spec(),
    ;
}

/// The operator is commutative.
pub trait Commutativity<E: View>: Magma<E> {
    /// `a op b == b op a`.
    proof fn commutative(a: E::V, b: E::V)
        ensures
            Self::op_spec(a, b) == Self::op_spec(b, a),
    ;
}

/// The operator is idempotent.
pub trait Idempotence<E: View>: Magma<E> {
    /// `a op a == a`.
    proof fn idempotent(a: E::V)
        ensures
            Self::op_spec(a, a) == a,
    ;
}

} // verus!
