//! A verified record store keyed by program-derived addresses.
//!
//! Records (reviews, comment counters, comments) live in program-owned byte
//! buffers located at addresses derived deterministically from seed data.
//! The crate provides the address derivation, the binary record codec, the
//! instruction decoder, and the lifecycle processor that validates and
//! mutates records, together with proofs of the central properties: address
//! derivation is deterministic, the codec round-trips, and every processor
//! outcome is pinned down by a specification-level model.

pub mod codec;
pub mod error;
pub mod instruction;
pub mod pda;
pub mod processor;
pub mod state;
pub mod token;
