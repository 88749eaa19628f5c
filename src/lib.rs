//! Exchange-rate vault: share/asset conversion math, the vault ledger, the
//! confidential share-balance lifecycle and the proof-request authenticator.
pub mod error;
pub mod events;
pub mod math;
pub mod state;
pub mod vault;
pub mod confidential;
pub mod bindings;
pub mod types;
pub mod proof_generator;
pub mod proofs;
