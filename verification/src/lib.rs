//! Core of a local encrypted credential vault: a hierarchy of
//! envelope-encrypted keys unlocked by a master password.
//!
//! Secrets are encrypted with XChaCha20-Poly1305 under per-object symmetric
//! keys; each key is wrapped under its parent key (password-derived key
//! wraps the master key, the master key wraps vault keys, vault keys wrap
//! item keys).  Nonces come from a monotonic counter, decryption checks the
//! key identifier before touching the cipher, and all cryptographic
//! operations are gated behind a lock/unlock state machine.

pub mod aead;
pub mod codec;
pub mod envelope;
pub mod errors;
pub mod identifier;
pub mod kdf;
pub mod item;
pub mod mac;
pub mod nonce_counter;
pub mod primitive;
pub mod repository;
pub mod secure_key;
pub mod store;
pub mod symmetric_key;
pub mod vault;
