//! Verified core of the safe speer wrapper: error codes, configuration
//! checks, event decoding and key formatting. The calls into libspeer
//! itself live in the application crate beside this library.

pub mod config;
pub mod error;
pub mod event;
pub mod keys;

pub use config::{Config, ConfigStrings, c_string, optional_cstring};
pub use error::{Error, count_from_code, result_from_code};
pub use event::{DisconnectReason, EventType, event_data_len};
pub use keys::{PrivateKey, PublicKey, copy_key, cstr_from_public_key_bytes, public_key_to_hex};

use vstd::prelude::*;

verus! {

/// Length in bytes of a public key.
pub const PUBLIC_KEY_SIZE: usize = 32;

/// Length in bytes of a private key.
pub const PRIVATE_KEY_SIZE: usize = 32;

/// Length in bytes of a connection id.
pub const CONNECTION_ID_SIZE: usize = 8;

/// Largest packet that libspeer sends.
pub const MAX_PACKET_SIZE: usize = 1350;

/// Largest number of streams on one peer.
pub const MAX_STREAMS: usize = 1024;

/// Largest number of peers on one host.
pub const MAX_PEERS: usize = 256;

} // verus!
