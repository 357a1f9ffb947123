//! A zero-knowledge circuit gadget proving that a claimed sum equals the sum
//! of an arithmetic progression with a fixed step and term count, starting
//! from a publicly committed first term.
//!
//! `progression` holds the mathematical model of the trace and the proofs of
//! the circuit's laws; `framework` is the trusted boundary with the halo2
//! proving framework; `chip` is the verified configurator, witness assigner
//! and public-input layout.

pub mod chip;
pub mod framework;
pub mod progression;
