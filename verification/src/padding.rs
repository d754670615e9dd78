//! PKCS#7 padding to the cipher's 16-byte block.
//!
//! A message is followed by `n` bytes of value `n`, where `n` brings the length
//! up to the next multiple of the block size.  A message that already fills its
//! last block gets a whole block of padding, so the padding is always present
//! and can always be taken off again.

use vstd::prelude::*;
use vstd::slice::slice_subrange;
use vstd::slice::slice_to_vec;
use crate::error::CipherError;

verus! {

/// Bytes in one cipher block.
pub const BLOCK_SIZE: usize = 16;

/// How many padding bytes a message of `len` bytes receives: between 1 and 16.
pub open spec fn pad_len(len: nat) -> nat {
    (16 - len % 16) as nat
}

/// The message followed by its padding.
pub open spec fn padded(data: Seq<u8>) -> Seq<u8> {
    data + Seq::new(pad_len(data.len()), |i: int| pad_len(data.len()) as u8)
}

/// The buffer ends in `n` bytes of value `n`, with `n` between 1 and the block
/// size and no larger than the buffer.
pub open spec fn well_padded(buf: Seq<u8>) -> bool {
    &&& buf.len() > 0
    &&& 1 <= buf.last() <= 16
    &&& buf.last() <= buf.len()
    &&& forall|i: int| buf.len() - buf.last() <= i < buf.len() ==> buf[i] == buf.last()
}

/// The buffer without the bytes that its last byte counts.
pub open spec fn stripped(buf: Seq<u8>) -> Seq<u8> {
    buf.subrange(0, buf.len() - buf.last())
}

/// What `unpad` returns: the message, or `Padding` when the buffer does not end
/// in valid padding.
pub open spec fn unpadded(buf: Seq<u8>) -> Result<Seq<u8>, CipherError> {
    if well_padded(buf) {
        Ok(stripped(buf))
    } else {
        Err(CipherError::Padding)
    }
}

/// A padded message is strictly longer than the message, by at most a block,
/// and fills a whole number of blocks.
pub proof fn lemma_padded_len(data: Seq<u8>)
    ensures
        padded(data).len() == data.len() + (16 - data.len() % 16),
        padded(data).len() > data.len(),
        padded(data).len() <= data.len() + 16,
        padded(data).len() % 16 == 0,
        padded(data).len() >= 16,
{
}

/// Taking the padding off a padded message gives the message back.
pub proof fn lemma_unpad_inverts_pad(data: Seq<u8>)
    ensures
        well_padded(padded(data)),
        stripped(padded(data)) == data,
        unpadded(padded(data)) == Ok::<Seq<u8>, CipherError>(data),
{
    let p = padded(data);
    assert(p.last() == pad_len(data.len()) as u8);
    assert(stripped(p) =~= data);
}

/// A block-aligned buffer with valid padding is the padding of exactly one
/// message: the one that stripping yields.
pub proof fn lemma_pad_inverts_unpad(buf: Seq<u8>)
    requires
        buf.len() % 16 == 0,
        well_padded(buf),
    ensures
        padded(stripped(buf)) == buf,
{
    let n = buf.last() as int;
    let msg = stripped(buf);
    assert(msg.len() == buf.len() - n);
    assert(pad_len(msg.len()) == n);
    assert(padded(msg) =~= buf);
}

/// Two messages with the same padded form are the same message.
pub proof fn lemma_padded_injective(a: Seq<u8>, b: Seq<u8>)
    requires
        padded(a) == padded(b),
    ensures
        a == b,
{
    lemma_unpad_inverts_pad(a);
    lemma_unpad_inverts_pad(b);
}

/// Appends PKCS#7 padding to `data`.
pub fn pad(data: &[u8]) -> (out: Vec<u8>)
    ensures
        out@ == padded(data@),
{
    let fill: usize = BLOCK_SIZE - data.len() % BLOCK_SIZE;
    let byte: u8 = fill as u8;
    let mut out: Vec<u8> = slice_to_vec(data);
    let mut i: usize = 0;
    while i < fill
        invariant
            i <= fill,
            fill == pad_len(data@.len()),
            byte == fill,
            out@ == data@ + Seq::new(i as nat, |k: int| byte),
        decreases fill - i,
    {
        out.push(byte);
        i += 1;
        assert(out@ =~= data@ + Seq::new(i as nat, |k: int| byte));
    }
    assert(out@ =~= padded(data@));
    out
}

/// Checks the padding at the end of `buf` and returns the message before it.
///
/// Fails with `Padding` when the buffer is empty, when its last byte is 0 or
/// above 16 or counts more bytes than the buffer holds, or when one of the
/// bytes it counts has another value.
pub fn unpad(buf: &[u8]) -> (res: Result<Vec<u8>, CipherError>)
    ensures
        match res {
            Ok(msg) => unpadded(buf@) == Ok::<Seq<u8>, CipherError>(msg@),
            Err(e) => unpadded(buf@) == Err::<Seq<u8>, CipherError>(e),
        },
{
    let len: usize = buf.len();
    if len == 0 {
        return Err(CipherError::Padding);
    }
    let last: u8 = buf[len - 1];
    let count: usize = last as usize;
    if count == 0 || count > BLOCK_SIZE || count > len {
        return Err(CipherError::Padding);
    }
    let start: usize = len - count;
    let mut i: usize = start;
    while i < len
        invariant
            start <= i <= len,
            len == buf@.len(),
            last == buf@.last(),
            start == len - last,
            forall|k: int| start <= k < i ==> buf@[k] == last,
        decreases len - i,
    {
        if buf[i] != last {
            return Err(CipherError::Padding);
        }
        i += 1;
    }
    let msg: Vec<u8> = slice_to_vec(slice_subrange(buf, 0, start));
    Ok(msg)
}

} // verus!
