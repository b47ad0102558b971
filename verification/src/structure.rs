//! Data structures built on the operators of [`crate::algebra`].
pub mod ranged;
