//! Frequently used operators.
//!
//! The operators on numbers are given for every primitive integer type.
use vstd::prelude::*;
use num_traits::Bounded;

mod additive;
mod bit_xor;
mod bounds;
mod max;
mod min;
mod string_chain;

verus! {

/// A vector, ordered as vectors are: element by element, a prefix before
/// what it is a prefix of. The least vector is the empty one.
#[derive(Clone, Eq, PartialEq, Ord, PartialOrd, Debug)]
pub struct BoundedVec<T>(Vec<T>);

impl<T> View for BoundedVec<T> {
    type V = Seq<T>;

    closed spec fn view(&self) -> Seq<T> {
        self.0@
    }
}

impl<T: Bounded> Bounded for BoundedVec<T> {
    /// Returns the empty vector.
    fn min_value() -> (res: Self)
        ensures
            res@ == Seq::<T>::empty(),
    {
        Self(Vec::new())
    }

    /// Returns the vector whose one element is `T`'s
    /// `num_traits::Bounded::max_value`. Of that element nothing is known
    /// here, so the contract gives the length alone.
    #[verifier::external_body]
    fn max_value() -> (res: Self)
        ensures
            res@.len() == 1,
    {
        Self(vec![Bounded::max_value()])
    }
}

/// min: a [`Monoid`](crate::algebra::Monoid) with
/// [`Idempotence`](crate::algebra::Idempotence) and
/// [`Commutativity`](crate::algebra::Commutativity). Its identity is the
/// greatest value of the type.
#[derive(Clone, Copy, Eq, PartialEq, Ord, PartialOrd, Debug)]
pub struct MinMonoid;

/// max: a [`Monoid`](crate::algebra::Monoid) with
/// [`Idempotence`](crate::algebra::Idempotence) and
/// [`Commutativity`](crate::algebra::Commutativity). Its identity is the
/// least value of the type.
#[derive(Clone, Copy, Eq, PartialEq, Ord, PartialOrd, Debug)]
pub struct MaxMonoid;

/// additive: a commutative [`Monoid`](crate::algebra::Monoid) on the
/// unsigned types, a commutative [`Group`](crate::algebra::Group) on the
/// signed ones.
#[derive(Clone, Copy, Eq, PartialEq, Ord, PartialOrd, Debug)]
pub struct AdditiveStruct;

/// bitwise-xor: a commutative [`Group`](crate::algebra::Group).
#[derive(Clone, Copy, Eq, PartialEq, Ord, PartialOrd, Debug)]
pub struct BitXorGroup;

/// Concatenation of strings: a [`Monoid`](crate::algebra::Monoid) that is
/// not commutative.
#[derive(Clone, Copy, Eq, PartialEq, Ord, PartialOrd, Debug)]
pub struct StringChain;

} // verus!
