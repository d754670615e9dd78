//! The cipher engine: AES in cipher block chaining mode over a padded message.
//!
//! Encryption pads the message to whole blocks and chains the blocks under the
//! key, seeded by the first block of the initialization vector.  Decryption
//! undoes the chaining and takes the padding off.  The variant of the cipher is
//! selected by the length of the key alone.
//!
//! The chaining itself is the work of `block_modes::Cbc` over the ciphers of the
//! `aes` crate.  What it computes is not spelled out here: each of the six calls
//! has a name, and the contracts of this module are stated over those names.

use vstd::prelude::*;
use vstd::slice::slice_subrange;
use aes::Aes128;
use aes::Aes192;
use aes::Aes256;
use block_modes::block_padding::NoPadding;
use block_modes::BlockMode;
use block_modes::Cbc;
use crate::error::CipherError;
use crate::key::valid_iv_len;
use crate::key::valid_key_len;
use crate::key::variant_for;
use crate::key::CipherVariant;
use crate::padding::lemma_pad_inverts_unpad;
use crate::padding::lemma_padded_len;
use crate::padding::lemma_unpad_inverts_pad;
use crate::padding::pad;
use crate::padding::padded;
use crate::padding::unpad;
use crate::padding::unpadded;
use crate::padding::BLOCK_SIZE;

verus! {

/// The bytes that AES-128 in CBC mode makes of whole blocks.
pub uninterp spec fn aes128_cbc_encrypt(key: Seq<u8>, iv: Seq<u8>, blocks: Seq<u8>) -> Seq<u8>;

/// The bytes that AES-128 in CBC mode recovers from whole blocks.
pub uninterp spec fn aes128_cbc_decrypt(key: Seq<u8>, iv: Seq<u8>, blocks: Seq<u8>) -> Seq<u8>;

/// The bytes that AES-192 in CBC mode makes of whole blocks.
pub uninterp spec fn aes192_cbc_encrypt(key: Seq<u8>, iv: Seq<u8>, blocks: Seq<u8>) -> Seq<u8>;

/// The bytes that AES-192 in CBC mode recovers from whole blocks.
pub uninterp spec fn aes192_cbc_decrypt(key: Seq<u8>, iv: Seq<u8>, blocks: Seq<u8>) -> Seq<u8>;

/// The bytes that AES-256 in CBC mode makes of whole blocks.
pub uninterp spec fn aes256_cbc_encrypt(key: Seq<u8>, iv: Seq<u8>, blocks: Seq<u8>) -> Seq<u8>;

/// The bytes that AES-256 in CBC mode recovers from whole blocks.
pub uninterp spec fn aes256_cbc_decrypt(key: Seq<u8>, iv: Seq<u8>, blocks: Seq<u8>) -> Seq<u8>;

/// Chained encryption of whole blocks under the given variant.
pub open spec fn cbc_encrypt(
    variant: CipherVariant,
    key: Seq<u8>,
    iv: Seq<u8>,
    blocks: Seq<u8>,
) -> Seq<u8> {
    match variant {
        CipherVariant::Aes128 => aes128_cbc_encrypt(key, iv, blocks),
        CipherVariant::Aes192 => aes192_cbc_encrypt(key, iv, blocks),
        CipherVariant::Aes256 => aes256_cbc_encrypt(key, iv, blocks),
    }
}

/// Chained decryption of whole blocks under the given variant.
pub open spec fn cbc_decrypt(
    variant: CipherVariant,
    key: Seq<u8>,
    iv: Seq<u8>,
    blocks: Seq<u8>,
) -> Seq<u8> {
    match variant {
        CipherVariant::Aes128 => aes128_cbc_decrypt(key, iv, blocks),
        CipherVariant::Aes192 => aes192_cbc_decrypt(key, iv, blocks),
        CipherVariant::Aes256 => aes256_cbc_decrypt(key, iv, blocks),
    }
}

/// The part of an initialization vector that seeds the chain: its first block.
/// A vector of 24 or 32 bytes contributes its first 16.
pub open spec fn chain_seed(iv: Seq<u8>) -> Seq<u8> {
    iv.subrange(0, 16)
}

/// What `encrypt_data` returns.
pub open spec fn encrypted(data: Seq<u8>, key: Seq<u8>, iv: Seq<u8>) -> Result<
    Seq<u8>,
    CipherError,
> {
    if !valid_key_len(key.len()) {
        Err(CipherError::UnsupportedKeySize)
    } else if !valid_iv_len(iv.len()) {
        Err(CipherError::InvalidIvLength)
    } else {
        Ok(cbc_encrypt(variant_for(key.len()), key, chain_seed(iv), padded(data)))
    }
}

/// What `decrypt_data` returns.
pub open spec fn decrypted(ciphertext: Seq<u8>, key: Seq<u8>, iv: Seq<u8>) -> Result<
    Seq<u8>,
    CipherError,
> {
    if !valid_key_len(key.len()) {
        Err(CipherError::UnsupportedKeySize)
    } else if !valid_iv_len(iv.len()) {
        Err(CipherError::InvalidIvLength)
    } else if ciphertext.len() == 0 || ciphertext.len() % 16 != 0 {
        Err(CipherError::MalformedCiphertext)
    } else {
        unpadded(cbc_decrypt(variant_for(key.len()), key, chain_seed(iv), ciphertext))
    }
}

/// Encryption fails for a key or a vector of the wrong length and for nothing
/// else, and the key is looked at first.
pub proof fn lemma_encrypt_rejects(data: Seq<u8>, key: Seq<u8>, iv: Seq<u8>)
    ensures
        encrypted(data, key, iv) is Ok <==> valid_key_len(key.len()) && valid_iv_len(iv.len()),
        !valid_key_len(key.len()) <==> encrypted(data, key, iv) == Err::<Seq<u8>, CipherError>(
            CipherError::UnsupportedKeySize,
        ),
        !valid_key_len(key.len()) <==> decrypted(data, key, iv) == Err::<Seq<u8>, CipherError>(
            CipherError::UnsupportedKeySize,
        ),
{
}

/// A key of 16, 24 or 32 bytes selects AES-128, AES-192 or AES-256, whatever
/// its bytes are.
pub proof fn lemma_key_length_selects_cipher(data: Seq<u8>, key: Seq<u8>, iv: Seq<u8>)
    requires
        valid_iv_len(iv.len()),
    ensures
        key.len() == 16 ==> encrypted(data, key, iv) == Ok::<Seq<u8>, CipherError>(
            aes128_cbc_encrypt(key, chain_seed(iv), padded(data)),
        ),
        key.len() == 24 ==> encrypted(data, key, iv) == Ok::<Seq<u8>, CipherError>(
            aes192_cbc_encrypt(key, chain_seed(iv), padded(data)),
        ),
        key.len() == 32 ==> encrypted(data, key, iv) == Ok::<Seq<u8>, CipherError>(
            aes256_cbc_encrypt(key, chain_seed(iv), padded(data)),
        ),
{
}

/// Tampering is never silent.  Let `ciphertext` be what `encrypt_data` made of
/// `message`, and `tampered` a buffer of the same length that differs from it
/// in at least one bit.  Then decrypting `tampered` fails with `Padding` and
/// with nothing else, or it yields a result; and a result of `decrypt_data`,
/// which encrypts to what was decrypted, is never `message`.
pub proof fn lemma_tampering_is_never_silent(
    message: Seq<u8>,
    key: Seq<u8>,
    iv: Seq<u8>,
    ciphertext: Seq<u8>,
    tampered: Seq<u8>,
)
    requires
        encrypted(message, key, iv) == Ok::<Seq<u8>, CipherError>(ciphertext),
        ciphertext.len() == message.len() + (16 - message.len() % 16),
        tampered.len() == ciphertext.len(),
        tampered != ciphertext,
    ensures
        decrypted(tampered, key, iv) is Err ==> decrypted(tampered, key, iv) == Err::<
            Seq<u8>,
            CipherError,
        >(CipherError::Padding),
        forall|recovered: Seq<u8>|
            decrypted(tampered, key, iv) == Ok::<Seq<u8>, CipherError>(recovered) && encrypted(
                recovered,
                key,
                iv,
            ) == Ok::<Seq<u8>, CipherError>(tampered) ==> recovered != message,
{
}

/// `Cbc::<Aes128, NoPadding>::new_from_slices` followed by `encrypt_vec`.
///
/// With a 16-byte key, a 16-byte vector and whole blocks neither call fails.
/// The output is as long as the input, and decrypting it under the same key
/// and vector gives the input back.
#[verifier::external_body]
fn aes128_encrypt_blocks(key: &[u8], iv: &[u8], blocks: &[u8]) -> (out: Vec<u8>)
    requires
        key@.len() == 16,
        iv@.len() == 16,
        blocks@.len() % 16 == 0,
    ensures
        out@ == aes128_cbc_encrypt(key@, iv@, blocks@),
        out@.len() == blocks@.len(),
        aes128_cbc_decrypt(key@, iv@, out@) == blocks@,
{
    Cbc::<Aes128, NoPadding>::new_from_slices(key, iv).unwrap().encrypt_vec(blocks)
}

/// `Cbc::<Aes128, NoPadding>::new_from_slices` followed by `decrypt_vec`.
///
/// With a 16-byte key, a 16-byte vector and whole blocks neither call fails.
/// The output is as long as the input, and encrypting it under the same key
/// and vector gives the input back.
#[verifier::external_body]
fn aes128_decrypt_blocks(key: &[u8], iv: &[u8], blocks: &[u8]) -> (out: Vec<u8>)
    requires
        key@.len() == 16,
        iv@.len() == 16,
        blocks@.len() % 16 == 0,
    ensures
        out@ == aes128_cbc_decrypt(key@, iv@, blocks@),
        out@.len() == blocks@.len(),
        aes128_cbc_encrypt(key@, iv@, out@) == blocks@,
{
    Cbc::<Aes128, NoPadding>::new_from_slices(key, iv).unwrap().decrypt_vec(blocks).unwrap()
}

/// `Cbc::<Aes192, NoPadding>::new_from_slices` followed by `encrypt_vec`.
///
/// With a 24-byte key, a 16-byte vector and whole blocks neither call fails.
/// The output is as long as the input, and decrypting it under the same key
/// and vector gives the input back.
#[verifier::external_body]
fn aes192_encrypt_blocks(key: &[u8], iv: &[u8], blocks: &[u8]) -> (out: Vec<u8>)
    requires
        key@.len() == 24,
        iv@.len() == 16,
        blocks@.len() % 16 == 0,
    ensures
        out@ == aes192_cbc_encrypt(key@, iv@, blocks@),
        out@.len() == blocks@.len(),
        aes192_cbc_decrypt(key@, iv@, out@) == blocks@,
{
    Cbc::<Aes192, NoPadding>::new_from_slices(key, iv).unwrap().encrypt_vec(blocks)
}

/// `Cbc::<Aes192, NoPadding>::new_from_slices` followed by `decrypt_vec`.
///
/// With a 24-byte key, a 16-byte vector and whole blocks neither call fails.
/// The output is as long as the input, and encrypting it under the same key
/// and vector gives the input back.
#[verifier::external_body]
fn aes192_decrypt_blocks(key: &[u8], iv: &[u8], blocks: &[u8]) -> (out: Vec<u8>)
    requires
        key@.len() == 24,
        iv@.len() == 16,
        blocks@.len() % 16 == 0,
    ensures
        out@ == aes192_cbc_decrypt(key@, iv@, blocks@),
        out@.len() == blocks@.len(),
        aes192_cbc_encrypt(key@, iv@, out@) == blocks@,
{
    Cbc::<Aes192, NoPadding>::new_from_slices(key, iv).unwrap().decrypt_vec(blocks).unwrap()
}

/// `Cbc::<Aes256, NoPadding>::new_from_slices` followed by `encrypt_vec`.
///
/// With a 32-byte key, a 16-byte vector and whole blocks neither call fails.
/// The output is as long as the input, and decrypting it under the same key
/// and vector gives the input back.
#[verifier::external_body]
fn aes256_encrypt_blocks(key: &[u8], iv: &[u8], blocks: &[u8]) -> (out: Vec<u8>)
    requires
        key@.len() == 32,
        iv@.len() == 16,
        blocks@.len() % 16 == 0,
    ensures
        out@ == aes256_cbc_encrypt(key@, iv@, blocks@),
        out@.len() == blocks@.len(),
        aes256_cbc_decrypt(key@, iv@, out@) == blocks@,
{
    Cbc::<Aes256, NoPadding>::new_from_slices(key, iv).unwrap().encrypt_vec(blocks)
}

/// `Cbc::<Aes256, NoPadding>::new_from_slices` followed by `decrypt_vec`.
///
/// With a 32-byte key, a 16-byte vector and whole blocks neither call fails.
/// The output is as long as the input, and encrypting it under the same key
/// and vector gives the input back.
#[verifier::external_body]
fn aes256_decrypt_blocks(key: &[u8], iv: &[u8], blocks: &[u8]) -> (out: Vec<u8>)
    requires
        key@.len() == 32,
        iv@.len() == 16,
        blocks@.len() % 16 == 0,
    ensures
        out@ == aes256_cbc_decrypt(key@, iv@, blocks@),
        out@.len() == blocks@.len(),
        aes256_cbc_encrypt(key@, iv@, out@) == blocks@,
{
    Cbc::<Aes256, NoPadding>::new_from_slices(key, iv).unwrap().decrypt_vec(blocks).unwrap()
}

/// Chains whole blocks under the cipher that `variant` names.
fn encrypt_blocks(variant: CipherVariant, key: &[u8], seed: &[u8], blocks: &[u8]) -> (out: Vec<u8>)
    requires
        key@.len() == variant.spec_key_len(),
        seed@.len() == 16,
        blocks@.len() % 16 == 0,
    ensures
        out@ == cbc_encrypt(variant, key@, seed@, blocks@),
        out@.len() == blocks@.len(),
        cbc_decrypt(variant, key@, seed@, out@) == blocks@,
{
    match variant {
        CipherVariant::Aes128 => aes128_encrypt_blocks(key, seed, blocks),
        CipherVariant::Aes192 => aes192_encrypt_blocks(key, seed, blocks),
        CipherVariant::Aes256 => aes256_encrypt_blocks(key, seed, blocks),
    }
}

/// Undoes the chaining of whole blocks under the cipher that `variant` names.
fn decrypt_blocks(variant: CipherVariant, key: &[u8], seed: &[u8], blocks: &[u8]) -> (out: Vec<u8>)
    requires
        key@.len() == variant.spec_key_len(),
        seed@.len() == 16,
        blocks@.len() % 16 == 0,
    ensures
        out@ == cbc_decrypt(variant, key@, seed@, blocks@),
        out@.len() == blocks@.len(),
        cbc_encrypt(variant, key@, seed@, out@) == blocks@,
{
    match variant {
        CipherVariant::Aes128 => aes128_decrypt_blocks(key, seed, blocks),
        CipherVariant::Aes192 => aes192_decrypt_blocks(key, seed, blocks),
        CipherVariant::Aes256 => aes256_decrypt_blocks(key, seed, blocks),
    }
}

/// Encrypts `data` under `key`, chained from the first block of `iv`.
///
/// A key that is not 16, 24 or 32 bytes long is an `UnsupportedKeySize`; with a
/// valid key, a vector that is not 16, 24 or 32 bytes long is an
/// `InvalidIvLength`.  Every other input is encrypted.
///
/// The ciphertext is the padded message chained under the variant that the key
/// length selects.  It is longer than the message by the padding, between 1
/// and 16 bytes, and decrypting it under the same key and vector yields the
/// message.
pub fn encrypt_data(data: &[u8], key: &[u8], iv: &[u8]) -> (res: Result<Vec<u8>, CipherError>)
    ensures
        match res {
            Ok(ciphertext) => {
                &&& encrypted(data@, key@, iv@) == Ok::<Seq<u8>, CipherError>(ciphertext@)
                &&& ciphertext@.len() == data@.len() + (16 - data@.len() % 16)
                &&& ciphertext@.len() > data@.len()
                &&& decrypted(ciphertext@, key@, iv@) == Ok::<Seq<u8>, CipherError>(data@)
            },
            Err(e) => encrypted(data@, key@, iv@) == Err::<Seq<u8>, CipherError>(e),
        },
{
    let variant = match CipherVariant::for_key_len(key.len()) {
        Ok(variant) => variant,
        Err(e) => {
            return Err(e);
        },
    };
    let iv_len: usize = iv.len();
    if iv_len != 16 && iv_len != 24 && iv_len != 32 {
        return Err(CipherError::InvalidIvLength);
    }
    let seed = slice_subrange(iv, 0, BLOCK_SIZE);
    let blocks = pad(data);
    proof {
        lemma_padded_len(data@);
        lemma_unpad_inverts_pad(data@);
    }
    let ciphertext = encrypt_blocks(variant, key, seed, blocks.as_slice());
    Ok(ciphertext)
}

/// Decrypts `ciphertext` under `key`, chained from the first block of `iv`.
///
/// The checks come in this order: a key that is not 16, 24 or 32 bytes long is
/// an `UnsupportedKeySize`; a vector that is not 16, 24 or 32 bytes long is an
/// `InvalidIvLength`; a ciphertext that is empty or not a whole number of
/// blocks is a `MalformedCiphertext`; a decrypted buffer that does not end in
/// valid padding is a `Padding` error.  Otherwise the result is the decrypted
/// buffer without its padding.
///
/// A successful result is the one message that encrypts to `ciphertext` under
/// this key and vector: no other ciphertext decrypts to it.
pub fn decrypt_data(encrypted_data: &[u8], key: &[u8], iv: &[u8]) -> (res: Result<
    Vec<u8>,
    CipherError,
>)
    ensures
        match res {
            Ok(data) => {
                &&& decrypted(encrypted_data@, key@, iv@) == Ok::<Seq<u8>, CipherError>(data@)
                &&& encrypted(data@, key@, iv@) == Ok::<Seq<u8>, CipherError>(encrypted_data@)
                &&& data@.len() < encrypted_data@.len() <= data@.len() + 16
            },
            Err(e) => decrypted(encrypted_data@, key@, iv@) == Err::<Seq<u8>, CipherError>(e),
        },
{
    let variant = match CipherVariant::for_key_len(key.len()) {
        Ok(variant) => variant,
        Err(e) => {
            return Err(e);
        },
    };
    let iv_len: usize = iv.len();
    if iv_len != 16 && iv_len != 24 && iv_len != 32 {
        return Err(CipherError::InvalidIvLength);
    }
    let len: usize = encrypted_data.len();
    if len == 0 || len % BLOCK_SIZE != 0 {
        return Err(CipherError::MalformedCiphertext);
    }
    let seed = slice_subrange(iv, 0, BLOCK_SIZE);
    let blocks = decrypt_blocks(variant, key, seed, encrypted_data);
    let res = unpad(blocks.as_slice());
    proof {
        if res is Ok {
            lemma_pad_inverts_unpad(blocks@);
        }
    }
    res
}

} // verus!
