//! What a run tells its user, and the hexadecimal form in which it shows a key.

use vstd::prelude::*;

verus! {

/// The lowercase hexadecimal digit of a value between 0 and 15.
pub open spec fn hex_digit(nibble: int) -> char {
    seq!['0', '1', '2', '3', '4', '5', '6', '7', '8', '9', 'a', 'b', 'c', 'd', 'e', 'f'][nibble]
}

/// Two lowercase hexadecimal digits per byte, the high half first.
pub open spec fn hex_encoded(bytes: Seq<u8>) -> Seq<char> {
    Seq::new(
        2 * bytes.len(),
        |i: int|
            if i % 2 == 0 {
                hex_digit(bytes[i / 2] as int / 16)
            } else {
                hex_digit(bytes[i / 2] as int % 16)
            },
    )
}

/// `hex::encode`: the bytes as a string of lowercase hexadecimal digits, two
/// for each byte in order, the high four bits before the low four.
#[verifier::external_body]
pub(crate) fn hex_encode(bytes: &[u8]) -> (text: String)
    ensures
        text@ == hex_encoded(bytes@),
{
    hex::encode(bytes)
}

/// A message of the run to its user.  How it is worded is up to the caller.
#[derive(Debug, PartialEq, Eq)]
pub enum Notice {
    /// The answer to the key size menu was none of its entries; the run goes on
    /// with 128 bits.
    KeySizeDefaulted,
    /// A key was generated: its size in bits and its bytes in hexadecimal.
    KeyGenerated { bits: usize, encoded: String },
    /// The phrase entered for the initialization vector has a wrong length and
    /// must be entered again.
    IvRejected,
    /// The input file was read: its size in bytes.
    InputRead { size: usize },
    /// The ciphertext was written to the file at `path`.
    CiphertextSaved { path: String },
    /// The ciphertext was decrypted again: the size of what came out.
    PlaintextRecovered { size: usize },
    /// The recovered plaintext was written to the file at `path`.
    RecoveredSaved { path: String },
}

} // verus!
