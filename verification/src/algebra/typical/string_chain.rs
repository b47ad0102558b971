//! [`StringChain`]: concatenation of strings, with the empty string as the
//! identity. It is associative and not commutative.
use vstd::prelude::*;
use vstd::string::StringExecFns;
use crate::algebra::{Magma, Monoid, Semigroup};
use crate::algebra::typical::StringChain;

verus! {

impl Magma<String> for StringChain {
    open spec fn op_spec(lhs: Seq<char>, rhs: Seq<char>) -> Seq<char> {
        lhs + rhs
    }

    fn op(lhs: &String, rhs: &String) -> (res: String) {
        let mut res = lhs.clone();
        res.append(rhs.as_str());
        res
    }
}

impl Semigroup<String> for StringChain {
    proof fn associative(a: Seq<char>, b: Seq<char>, c: Seq<char>) {
        assert((a + b) + c =~= a + (b + c));
    }
}

impl Monoid<String> for StringChain {
    open spec fn id_spec() -> Seq<char> {
        Seq::empty()
    }

    fn id() -> (res: String) {
        String::new()
    }

    proof fn identity(a: Seq<char>) {
    }
}

} // verus!
