use vstd::prelude::*;

verus! {

/// Failures of the encryption layer.
#[derive(Debug, PartialEq, Eq)]
pub enum CryptoError {
    EncryptionFailed,
    DecryptionFailed,
    InvalidKeySize { actual: usize, expected: usize },
    InvalidNonce,
    AuthenticationFailed,
    UnsupportedAlgorithm(String),
}

} // verus!
