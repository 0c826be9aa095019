use vstd::prelude::*;

verus! {

/// Every way in which an operation can fail; each carries a readable message.
#[derive(Debug, Clone, PartialEq, Eq)]
pub enum BubblegumError {
    /// An address did not decode to exactly one address's worth of bytes.
    InvalidPublicKey(String),
    /// The key bytes are not a consistent signing key pair.
    InvalidKeypair(String),
    /// The remote node could not be reached for the ordering nonce.
    SolanaClientError(String),
    /// The remote node rejected the transaction or did not confirm it.
    TransactionError(String),
    /// Reserved for encoding failures of instruction payloads.
    SerializationError(String),
    /// The key text is not base-58.
    InvalidEncoding(String),
    /// The transaction could not be signed with the given keys.
    SigningError(String),
}

} // verus!
