//! Orchestration layer of a STARK proving system for Cairo VM execution
//! traces: claim aggregation, Fiat-Shamir transcript threading, the global
//! logup consistency check, component allocation, and the prove/verify
//! pipelines that must stay bit-for-bit symmetric between prover and
//! verifier.

pub mod air;
pub mod channel;
pub mod claims;
pub mod components;
pub mod felt;
pub mod fields;
pub mod interaction;
pub mod logup;
pub mod pcs;
pub mod qm31;
pub mod relations;
pub mod stark;
pub mod trace;
