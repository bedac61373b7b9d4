//! Deterministic genesis construction for a test/dev chain.
//!
//! Label strings ("Alice", "Bob//stash") are turned into keypairs and account
//! identifiers through a fixed derivation scheme; a set of validator
//! identities, endowed accounts and seed data is then assembled into one
//! internally consistent genesis state, wrapped by a chain-spec descriptor.

use vstd::prelude::*;

pub mod evm_account;
pub mod genesis;
pub mod keys;
pub mod preset;

verus! {

/// The distinct failure causes of genesis construction.
#[derive(Clone, Copy, Debug, PartialEq, Eq, Structural)]
pub enum GenesisError {
    /// The runtime payload handed to assembly was empty.
    MissingRuntimePayload,
    /// An EVM seed address did not decode to exactly 20 bytes.
    MalformedAddress,
    /// The derivation-phrase grammar rejected a label.
    InvalidLabel,
    /// The deployment was built without an embedded runtime payload.
    RuntimePayloadUnavailable,
}

} // verus!
