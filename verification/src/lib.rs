//! Symbolic permutation-argument evaluation for a recursive proof verifier.
//!
//! This library reconstructs, from a proof transcript, the chunked
//! grand-product state of a permutation argument and derives the ordered
//! list of polynomial-commitment opening queries that an outer verifier
//! must check. It performs no field arithmetic itself: scalars and curve
//! points are opaque handles into a shared symbolic expression graph.

pub mod arith;
pub mod permutation;
pub mod query;
pub mod transcript;
pub mod vk;
