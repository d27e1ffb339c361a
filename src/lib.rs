//! Contract-wide configuration of a token factory, kept in the instance
//! storage of the running soroban contract.
//!
//! Two slots exist: the settlement token that the factory accepts, and the
//! template hash that new fungible-token contracts are deployed from. A slot
//! reads back the last value written to it, and a slot never written reads
//! as an error, never as a default.
pub mod host;
pub mod config;
pub mod laws;
