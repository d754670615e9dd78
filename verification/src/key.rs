//! Key material: the three key strengths, random keys, and the initialization
//! vector taken from a phrase.

use vstd::prelude::*;
use vstd::slice::slice_to_vec;
use vstd::string::StringSliceAdditionalSpecFns;
use rand::Rng;
use crate::error::CipherError;

verus! {

/// A key is 16, 24 or 32 bytes long.
pub open spec fn valid_key_len(len: nat) -> bool {
    len == 16 || len == 24 || len == 32
}

/// An initialization vector is 16, 24 or 32 bytes long.
pub open spec fn valid_iv_len(len: nat) -> bool {
    len == 16 || len == 24 || len == 32
}

/// The strength of the block cipher, fixed by the length of the key.
#[derive(Clone, Copy, Debug, PartialEq, Eq, Structural)]
pub enum CipherVariant {
    /// 128-bit key, 16 bytes.
    Aes128,
    /// 192-bit key, 24 bytes.
    Aes192,
    /// 256-bit key, 32 bytes.
    Aes256,
}

/// The variant that a key of `len` bytes selects, for a valid `len`.
pub open spec fn variant_for(len: nat) -> CipherVariant {
    if len == 16 {
        CipherVariant::Aes128
    } else if len == 24 {
        CipherVariant::Aes192
    } else {
        CipherVariant::Aes256
    }
}

/// The variant that a menu answer selects: `"1"`, `"2"` or `"3"`, nothing else.
pub open spec fn variant_for_choice(choice: Seq<char>) -> Option<CipherVariant> {
    if choice.len() != 1 {
        None
    } else if choice[0] == '1' {
        Some(CipherVariant::Aes128)
    } else if choice[0] == '2' {
        Some(CipherVariant::Aes192)
    } else if choice[0] == '3' {
        Some(CipherVariant::Aes256)
    } else {
        None
    }
}

impl CipherVariant {
    /// Length of the variant's key in bytes.
    pub open spec fn spec_key_len(self) -> usize {
        match self {
            CipherVariant::Aes128 => 16,
            CipherVariant::Aes192 => 24,
            CipherVariant::Aes256 => 32,
        }
    }

    /// Length of the variant's key in bytes.
    #[verifier::when_used_as_spec(spec_key_len)]
    pub fn key_len(self) -> (len: usize)
        ensures
            len == self.spec_key_len(),
            valid_key_len(len as nat),
            variant_for(len as nat) == self,
    {
        match self {
            CipherVariant::Aes128 => 16,
            CipherVariant::Aes192 => 24,
            CipherVariant::Aes256 => 32,
        }
    }

    /// Length of the variant's key in bits: 128, 192 or 256.
    pub fn key_bits(self) -> (bits: usize)
        ensures
            bits == 8 * self.spec_key_len(),
    {
        self.key_len() * 8
    }

    /// Selects the variant by the length of a key, and by nothing else.
    ///
    /// Any length but 16, 24 and 32 is an `UnsupportedKeySize`.
    pub fn for_key_len(len: usize) -> (res: Result<CipherVariant, CipherError>)
        ensures
            match res {
                Ok(variant) => valid_key_len(len as nat) && variant == variant_for(len as nat)
                    && variant.spec_key_len() == len,
                Err(e) => !valid_key_len(len as nat) && e == CipherError::UnsupportedKeySize,
            },
    {
        if len == 16 {
            Ok(CipherVariant::Aes128)
        } else if len == 24 {
            Ok(CipherVariant::Aes192)
        } else if len == 32 {
            Ok(CipherVariant::Aes256)
        } else {
            Err(CipherError::UnsupportedKeySize)
        }
    }

    /// Reads a menu answer: `"1"` is 128 bits, `"2"` is 192, `"3"` is 256.
    /// Any other answer selects nothing.
    pub fn from_choice(choice: &str) -> (res: Option<CipherVariant>)
        ensures
            res == variant_for_choice(choice@),
    {
        if choice.unicode_len() != 1 {
            return None;
        }
        let c: char = choice.get_char(0);
        if c == '1' {
            Some(CipherVariant::Aes128)
        } else if c == '2' {
            Some(CipherVariant::Aes192)
        } else if c == '3' {
            Some(CipherVariant::Aes256)
        } else {
            None
        }
    }
}

/// The error of the `rand` crate's generators.
#[verifier::external_type_specification]
#[verifier::external_body]
pub struct ExRandError(rand::Error);

/// `Rng::try_fill` on `rand::rngs::OsRng`: overwrites the buffer with bytes
/// from the operating system's random source.  Whether it succeeds and which
/// bytes it writes is not determined by the arguments; the buffer keeps its
/// length either way.
#[verifier::external_body]
fn fill_from_os(buf: &mut Vec<u8>) -> (outcome: Result<(), rand::Error>)
    ensures
        final(buf)@.len() == old(buf)@.len(),
{
    rand::rngs::OsRng.try_fill(&mut buf[..])
}

/// Turns a filled buffer and the outcome of the random source into a key:
/// the buffer itself when the source delivered, `RandomSource` when it did
/// not.  A failed fill never yields a key.
pub fn key_from_fill(buf: Vec<u8>, outcome: Result<(), rand::Error>) -> (res: Result<
    Vec<u8>,
    CipherError,
>)
    ensures
        outcome is Ok ==> res == Ok::<Vec<u8>, CipherError>(buf),
        outcome is Err ==> res == Err::<Vec<u8>, CipherError>(CipherError::RandomSource),
{
    match outcome {
        Ok(_) => Ok(buf),
        Err(_) => Err(CipherError::RandomSource),
    }
}

/// Generates a key of `length` bytes from the operating system's random
/// source.
///
/// The only failure is `RandomSource`, when the source cannot be read.
pub fn get_random_key(length: usize) -> (res: Result<Vec<u8>, CipherError>)
    ensures
        match res {
            Ok(key) => key@.len() == length,
            Err(e) => e == CipherError::RandomSource,
        },
{
    let mut key: Vec<u8> = Vec::new();
    let mut i: usize = 0;
    while i < length
        invariant
            i <= length,
            key@.len() == i,
        decreases length - i,
    {
        key.push(0u8);
        i += 1;
    }
    let outcome = fill_from_os(&mut key);
    key_from_fill(key, outcome)
}

/// Accepts a phrase as initialization vector when it is exactly 16, 24 or 32
/// bytes long, and returns its bytes; any other length, 0 included, is an
/// `InvalidIvLength`.
pub fn validate_iv(raw: &str) -> (res: Result<Vec<u8>, CipherError>)
    ensures
        match res {
            Ok(iv) => valid_iv_len(raw.spec_bytes().len()) && iv@ == raw.spec_bytes(),
            Err(e) => !valid_iv_len(raw.spec_bytes().len()) && e == CipherError::InvalidIvLength,
        },
{
    let bytes: &[u8] = raw.as_bytes();
    let len: usize = bytes.len();
    if len == 16 || len == 24 || len == 32 {
        Ok(slice_to_vec(bytes))
    } else {
        Err(CipherError::InvalidIvLength)
    }
}

} // verus!
