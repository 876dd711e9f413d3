//! Wire format of the dial-back message: a minimal length-delimited record
//! carrying one 64-bit unsigned token.
//!
//! A message is nine bytes: a single length byte, which must be `8`, followed
//! by the token in big-endian byte order.

use vstd::prelude::*;

verus! {

/// The value of the leading length byte: the token occupies eight bytes.
pub const NONCE_LEN: u8 = 8;

/// Total size of an encoded dial-back message in bytes.
pub const MESSAGE_LEN: usize = 9;

/// The encoded form of a dial-back message carrying `n`.
pub open spec fn spec_encode(n: u64) -> Seq<u8> {
    seq![
        8u8,
        (n >> 56) as u8,
        (n >> 48) as u8,
        (n >> 40) as u8,
        (n >> 32) as u8,
        (n >> 24) as u8,
        (n >> 16) as u8,
        (n >> 8) as u8,
        n as u8,
    ]
}

/// The token held by an eight-byte big-endian payload.
pub open spec fn spec_nonce_of(b: Seq<u8>) -> u64
    recommends
        b.len() == 8,
{
    ((b[0] as u64) << 56) | ((b[1] as u64) << 48) | ((b[2] as u64) << 40) | ((b[3] as u64) << 32)
        | ((b[4] as u64) << 24) | ((b[5] as u64) << 16) | ((b[6] as u64) << 8) | (b[7] as u64)
}

/// `b` already holds a complete dial-back message.
pub open spec fn spec_message_complete(b: Seq<u8>) -> bool {
    b.len() >= 9 && b[0] == 8u8
}

/// `b` can never grow into a well-formed dial-back message.
pub open spec fn spec_message_malformed(b: Seq<u8>) -> bool {
    b.len() >= 1 && b[0] != 8u8
}

/// Encodes `n` as a dial-back message.
pub fn encode_nonce(n: u64) -> (out: Vec<u8>)
    ensures
        out@ == spec_encode(n),
{
    let mut out: Vec<u8> = Vec::new();
    out.push(8u8);
    out.push(#[verifier::truncate] ((n >> 56) as u8));
    out.push(#[verifier::truncate] ((n >> 48) as u8));
    out.push(#[verifier::truncate] ((n >> 40) as u8));
    out.push(#[verifier::truncate] ((n >> 32) as u8));
    out.push(#[verifier::truncate] ((n >> 24) as u8));
    out.push(#[verifier::truncate] ((n >> 16) as u8));
    out.push(#[verifier::truncate] ((n >> 8) as u8));
    out.push(#[verifier::truncate] (n as u8));
    proof {
        assert(out@ =~= spec_encode(n));
    }
    out
}

/// Reads the token out of a buffer that starts with a complete message.
pub fn read_nonce(buf: &Vec<u8>) -> (n: u64)
    requires
        buf@.len() >= 9,
    ensures
        n == spec_nonce_of(buf@.subrange(1, 9)),
{
    let n = ((buf[1] as u64) << 56) | ((buf[2] as u64) << 48) | ((buf[3] as u64) << 40)
        | ((buf[4] as u64) << 32) | ((buf[5] as u64) << 24) | ((buf[6] as u64) << 16)
        | ((buf[7] as u64) << 8) | (buf[8] as u64);
    proof {
        let p = buf@.subrange(1, 9);
        assert(p[0] == buf@[1]);
        assert(p[1] == buf@[2]);
        assert(p[2] == buf@[3]);
        assert(p[3] == buf@[4]);
        assert(p[4] == buf@[5]);
        assert(p[5] == buf@[6]);
        assert(p[6] == buf@[7]);
        assert(p[7] == buf@[8]);
    }
    n
}

/// Law: decoding an encoded message yields the token that was encoded.
pub proof fn lemma_nonce_round_trip(n: u64)
    ensures
        spec_message_complete(spec_encode(n)),
        spec_nonce_of(spec_encode(n).subrange(1, 9)) == n,
{
    let e = spec_encode(n);
    let p = e.subrange(1, 9);
    assert(p[0] == (n >> 56) as u8);
    assert(p[1] == (n >> 48) as u8);
    assert(p[2] == (n >> 40) as u8);
    assert(p[3] == (n >> 32) as u8);
    assert(p[4] == (n >> 24) as u8);
    assert(p[5] == (n >> 16) as u8);
    assert(p[6] == (n >> 8) as u8);
    assert(p[7] == n as u8);
    assert((((((n >> 56) as u8) as u64) << 56) | ((((n >> 48) as u8) as u64) << 48)
        | ((((n >> 40) as u8) as u64) << 40) | ((((n >> 32) as u8) as u64) << 32)
        | ((((n >> 24) as u8) as u64) << 24) | ((((n >> 16) as u8) as u64) << 16)
        | ((((n >> 8) as u8) as u64) << 8) | ((n as u8) as u64)) == n) by (bit_vector);
}

} // verus!
