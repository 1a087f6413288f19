//! Core data types for a content-addressed, append-only, versioned value
//! store: an append-only entry log addressed by absolute or relative
//! version and mutated under an optimistic-concurrency guard, together
//! with a multi-scheme cryptographic identity abstraction (single-signer
//! and threshold-group keys) that authenticates appends and signed
//! protocol messages.

pub mod crypto;
pub mod data;
pub mod errors;
pub mod keys;
pub mod shared_types;
pub mod utils;
pub mod xor_name;

pub use data::PrivateSequence;
pub use data::PublicSequence;
pub use errors::Error;
pub use keys::BlsKeypair;
pub use keys::BlsKeypairShare;
pub use keys::Ed25519Keypair;
pub use keys::Keypair;
pub use keys::PublicKey;
pub use keys::SecretKey;
pub use keys::Signature;
pub use shared_types::Version;
pub use utils::verify_signature;
pub use utils::MessageId;
pub use xor_name::XorName;
pub use xor_name::XOR_NAME_LEN;
