//! The gossip wire protocol as a conformance target: a decoder from the
//! fixed-width binary encoding of a gossip `Protocol` message to the
//! effects record that conformance fixtures compare.
pub mod varint;
pub mod contact_info;
pub mod duplicate_shred;
pub mod epoch_slots;
pub mod vote;
pub mod retired;
pub mod pull_request;
pub mod protocol;
pub mod decode;
pub mod sanitize;
pub mod gossip_msg;
pub mod gossip_crds_data;
pub mod effects;
pub mod convert;
pub mod encode;
pub mod laws;

use vstd::prelude::*;

verus! {

/// Largest datagram a gossip message may occupy.
pub const PACKET_DATA_SIZE: usize = 1232;

/// Wallclock values at or above this bound are rejected.
pub const MAX_WALLCLOCK: u64 = 1_000_000_000_000_000;

/// Slot values at or above this bound are rejected.
pub const MAX_SLOT: u64 = 1_000_000_000_000_000;

/// Number of bytes of a public key.
pub const PUBKEY_BYTES: usize = 32;

/// Number of bytes of a signature.
pub const SIGNATURE_BYTES: usize = 64;

/// Number of bytes of a hash.
pub const HASH_BYTES: usize = 32;

} // verus!
