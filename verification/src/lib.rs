//! Two-directional encoding pipeline for TDX attestation records.
//!
//! The forward direction turns a decoded attestation quote plus its trust
//! collateral into one flat, strictly ordered sequence of decimal scalar
//! tokens for a field-element virtual machine.  The backward direction
//! re-parses that flat text into a typed argument list of scalars and
//! one-level arrays.

#![verifier::loop_isolation(false)]

pub mod argstream;
pub mod chars;
pub mod encode;
pub mod errors;
pub mod extract;
pub mod felt;
pub mod hexops;
pub mod resolver;
pub mod roundtrip;
pub mod serialize;
pub mod status;
pub mod types;
pub mod wide;
