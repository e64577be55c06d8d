//! Value representation for a small virtual machine: every value is a
//! header plus an immutable sequence of items (`interface`), with one
//! backend on shared, reference-counted storage (`naive`).
pub mod interface;
pub mod naive;
