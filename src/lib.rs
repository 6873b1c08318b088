//! Groth16 verification over BLS12-381: decoding of prover-exported JSON
//! artifacts, uncompressed point encodings, and the pairing check.
pub mod decimal;
pub mod json;
pub mod deserialization;
pub mod curve;
pub mod verify;
pub mod artifacts;
pub mod checker;
pub mod pallet;
