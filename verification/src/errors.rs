//! Error taxonomy of the store.
//!
//! Configuration errors (`ProfileAlreadyExists`, `StoreNotInitialized`,
//! `Locked`, `StoreAlreadyUnlocked`) report misuse to the caller.
//! Cryptographic errors (`IncorrectKey`, `EncryptionFailed`,
//! `SerializationFailed`) are fatal to the single operation and opaque, so
//! that they leak nothing about the plaintext.  `NonceExhausted` is fatal
//! for the key in use and is surfaced distinctly so that callers can rotate
//! it.  `DatabaseError` propagates a failure of the persistence
//! collaborator.

use vstd::prelude::*;

verus! {

#[derive(Debug, Clone, Copy, PartialEq, Eq, Structural)]
pub enum Error {
    /// The persistence collaborator failed.
    DatabaseError,
    /// The password hash could not be computed.
    PasswordHashingFailed,
    /// The underlying cipher failed; opaque by design.
    EncryptionFailed,
    /// Encoding or decoding of sensitive data failed; opaque by design.
    SerializationFailed,
    /// The key identifier does not match the data's identifier.
    IncorrectKey,
    /// No key row exists under the requested identifier.
    KeyDoesNotExist,
    /// A key that already has a persisted identity cannot be stored again.
    CannotUpdateKey,
    /// The operation needs the store unlocked.
    Locked,
    /// A profile already exists; only one profile is supported.
    ProfileAlreadyExists,
    /// The store has no profile yet; call `initialize_profile` first.
    StoreNotInitialized,
    /// `unlock` was called while the store was already unlocked.
    StoreAlreadyUnlocked,
    /// The password does not open the master key.
    IncorrectPassword,
    /// The nonce counter of the key is spent; the key must be rotated.
    NonceExhausted,
}

/// A key was imported from bytes of the wrong length.
#[derive(Debug, Clone, Copy, PartialEq, Eq, Structural)]
pub struct InvalidKeySizeError {
    pub expected: usize,
    pub actual: usize,
}

impl Error {
    /// A short description, in place of `Display`.
    pub fn message(&self) -> &'static str {
        match self {
            Error::DatabaseError => "the persistence layer failed",
            Error::PasswordHashingFailed => "unable to hash password",
            Error::EncryptionFailed => "unable to encrypt or decrypt data",
            Error::SerializationFailed => "unable to encode or decode sensitive data",
            Error::IncorrectKey => "incorrect symmetric key used for decryption",
            Error::KeyDoesNotExist => "key does not exist in database",
            Error::CannotUpdateKey => "cannot update key in store",
            Error::Locked => "the store is locked",
            Error::ProfileAlreadyExists => "the profile already exists",
            Error::StoreNotInitialized => {
                "store needs to be initialized using the initialize_profile method"
            },
            Error::StoreAlreadyUnlocked => "store already unlocked",
            Error::IncorrectPassword => "incorrect password",
            Error::NonceExhausted => "cannot increment the nonce anymore",
        }
    }
}

} // verus!
