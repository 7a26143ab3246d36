//! Test-support library for a Solana-style ledger environment.
//!
//! The heart of the library is the program deployment pipeline: a protocol
//! for uploading an arbitrarily large binary into a transactional system
//! whose packets have a fixed size ceiling.  The pipeline is built from
//! verified parts: a chunk-size calculator that measures how many payload
//! bytes fit in one transaction, a chunker that splits the binary into
//! offset-tagged pieces, and a deployment state machine that orders the
//! on-chain steps.  A time-warp converter turns wall-clock targets into
//! slot numbers for a simulated clock.

pub mod assembly;
pub mod capacity;
pub mod chunks;
pub mod deploy;
pub mod error;
pub mod ledger;
pub mod loaders;
pub mod oracle;
pub mod warp;
