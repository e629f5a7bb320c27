use vstd::prelude::*;

verus! {

/// The failure categories of the store and of disclosure.
#[derive(Debug, Clone, Copy, PartialEq, Eq, Structural)]
pub enum SecretError {
    /// The store could not complete the operation (an identifier collision
    /// on creation, or an I/O failure of a persistent store).
    StorageError,
    /// The key does not decode, or does not decode to exactly 32 bytes.
    InvalidKey,
    /// No consumable record: never created, already consumed, or deleted.
    NotFound,
    /// The stored nonce or ciphertext is malformed.
    CorruptRecord,
    /// Authentication failed: wrong key or tampered ciphertext.
    DecryptionFailed,
    /// The record exists and is unconsumed, but its expiry window has passed.
    Expired,
    /// The producer-side encryption was refused (bad nonce length or an
    /// oversized plaintext).
    EncryptionFailed,
}

} // verus!
