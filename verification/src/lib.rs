//! Verified core logic of the Firedancer-facing parts of the validator:
//! the gossip wire decoder used for conformance testing, shred header
//! checks, the transaction message conversion, account overrides, the
//! version record, and the decisions behind the proof-of-history bridge.
pub mod wire;
pub mod text;
pub mod version;
pub mod gossip;
pub mod versioned_message;
pub mod shred;
pub mod account_overrides;
pub mod poh;
pub mod cert_resolver;
