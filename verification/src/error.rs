//! The failures a run can end with.

use vstd::prelude::*;

verus! {

/// Why the file reader or the file writer gave up.
#[derive(Clone, Copy, Debug, PartialEq, Eq, Structural)]
pub enum IoFailure {
    /// The path names nothing.
    NotFound,
    /// The path names a directory.
    IsDirectory,
    /// Any other failure of the file system.
    Other,
}

/// Everything that can go wrong between choosing a key size and writing the
/// recovered plaintext.
#[derive(Clone, Copy, Debug, PartialEq, Eq, Structural)]
pub enum CipherError {
    /// The random source could not deliver key bytes.
    RandomSource,
    /// The initialization vector is not 16, 24 or 32 bytes long.
    InvalidIvLength,
    /// The key is not 16, 24 or 32 bytes long.
    UnsupportedKeySize,
    /// The ciphertext is empty or not a whole number of blocks.
    MalformedCiphertext,
    /// The decrypted buffer does not end in PKCS#7 padding.
    Padding,
    /// A file could not be read or written.
    Io(IoFailure),
}

} // verus!
