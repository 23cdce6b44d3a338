//! Iterative root finders and minimizers: the decision rules that drive them,
//! stated over plain values, and the Xorwow generator.
pub mod bracket;
pub mod ordering;
pub mod simplex;
pub mod xorwow;
