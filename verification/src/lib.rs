//! Benchmark pipeline for proving repeated SHA-256 evaluations inside a
//! PLONK-style circuit: setup-parameter acquisition and caching, key
//! derivation planning, witness-free circuit description, proof handling,
//! and artifact naming.

pub mod circuit;
pub mod errors;
pub mod input;
pub mod keys;
pub mod names;
pub mod params;
pub mod pipeline;
