//! A harness for arithmetic circuits that prove knowledge of a preimage of a
//! cryptographic permutation.
//!
//! The crate lays witness values out in the rows of a proving-system table,
//! declares the columns a circuit needs, and keeps the order of the proving
//! lifecycle: key generation, proof creation, proof verification. The
//! permutation gates and the polynomial commitment scheme are consumed from
//! `halo2_proofs` and its gadget crates; everything this crate decides on its
//! own is stated in contracts and proved.

pub mod anemoi;
pub mod assigner;
pub mod backend;
pub mod error;
pub mod felt;
pub mod mimc;
pub mod pipeline;
pub mod poseidon;
pub mod region;
pub mod registry;
