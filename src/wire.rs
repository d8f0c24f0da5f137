//! Wire framing: fixed-width big-endian length prefixes and the frames built on them.
//!
//! A preimage response is an 8-byte big-endian length followed by that many bytes;
//! a hint is a 4-byte big-endian length followed by that many UTF-8 bytes.

use vstd::prelude::*;

verus! {

/// The 8 bytes of `n`, most significant first.
pub open spec fn u64_be_bytes(n: u64) -> Seq<u8> {
    seq![
        ((n >> 56u64) & 0xffu64) as u8,
        ((n >> 48u64) & 0xffu64) as u8,
        ((n >> 40u64) & 0xffu64) as u8,
        ((n >> 32u64) & 0xffu64) as u8,
        ((n >> 24u64) & 0xffu64) as u8,
        ((n >> 16u64) & 0xffu64) as u8,
        ((n >> 8u64) & 0xffu64) as u8,
        (n & 0xffu64) as u8,
    ]
}

/// The 4 bytes of `n`, most significant first.
pub open spec fn u32_be_bytes(n: u32) -> Seq<u8> {
    seq![
        ((n >> 24u32) & 0xffu32) as u8,
        ((n >> 16u32) & 0xffu32) as u8,
        ((n >> 8u32) & 0xffu32) as u8,
        (n & 0xffu32) as u8,
    ]
}

/// The unsigned value of the first 8 bytes of `b`, read most significant first.
pub open spec fn u64_from_be(b: Seq<u8>) -> u64 {
    (b[0] as u64) << 56u64 | (b[1] as u64) << 48u64 | (b[2] as u64) << 40u64
        | (b[3] as u64) << 32u64 | (b[4] as u64) << 24u64 | (b[5] as u64) << 16u64
        | (b[6] as u64) << 8u64 | (b[7] as u64)
}

/// The unsigned value of the first 4 bytes of `b`, read most significant first.
pub open spec fn u32_from_be(b: Seq<u8>) -> u32 {
    (b[0] as u32) << 24u32 | (b[1] as u32) << 16u32 | (b[2] as u32) << 8u32 | (b[3] as u32)
}

/// A preimage response: the payload's length as 8 big-endian bytes, then the payload.
pub open spec fn preimage_response(p: Seq<u8>) -> Seq<u8> {
    u64_be_bytes(p.len() as u64) + p
}

/// A hint frame: the length of the hint's bytes as 4 big-endian bytes, then the bytes.
pub open spec fn hint_frame(b: Seq<u8>) -> Seq<u8> {
    u32_be_bytes(b.len() as u32) + b
}

/// Splits a complete preimage response off the front of `s`: the payload and what follows.
/// `None` when `s` holds no complete response.
pub open spec fn parse_preimage_response(s: Seq<u8>) -> Option<(Seq<u8>, Seq<u8>)> {
    if s.len() < 8 {
        None
    } else {
        let n = u64_from_be(s) as int;
        if s.len() - 8 < n {
            None
        } else {
            Some((s.subrange(8, 8 + n), s.skip(8 + n)))
        }
    }
}

/// Splits a complete hint frame off the front of `s`: the hint's bytes and what follows.
/// `None` when `s` holds no complete frame.
pub open spec fn parse_hint_frame(s: Seq<u8>) -> Option<(Seq<u8>, Seq<u8>)> {
    if s.len() < 4 {
        None
    } else {
        let n = u32_from_be(s) as int;
        if s.len() - 4 < n {
            None
        } else {
            Some((s.subrange(4, 4 + n), s.skip(4 + n)))
        }
    }
}

/// Encodes `n` as 8 big-endian bytes.
pub fn encode_u64_be(n: u64) -> (r: [u8; 8])
    ensures
        r@ == u64_be_bytes(n),
{
    let r: [u8; 8] = [
        ((n >> 56u64) & 0xffu64) as u8,
        ((n >> 48u64) & 0xffu64) as u8,
        ((n >> 40u64) & 0xffu64) as u8,
        ((n >> 32u64) & 0xffu64) as u8,
        ((n >> 24u64) & 0xffu64) as u8,
        ((n >> 16u64) & 0xffu64) as u8,
        ((n >> 8u64) & 0xffu64) as u8,
        (n & 0xffu64) as u8,
    ];
    assert(r@ =~= u64_be_bytes(n));
    r
}

/// Encodes `n` as 4 big-endian bytes.
pub fn encode_u32_be(n: u32) -> (r: [u8; 4])
    ensures
        r@ == u32_be_bytes(n),
{
    let r: [u8; 4] = [
        ((n >> 24u32) & 0xffu32) as u8,
        ((n >> 16u32) & 0xffu32) as u8,
        ((n >> 8u32) & 0xffu32) as u8,
        (n & 0xffu32) as u8,
    ];
    assert(r@ =~= u32_be_bytes(n));
    r
}

/// Reads the first 8 bytes of `b` as a big-endian unsigned integer.
pub fn decode_u64_be(b: &[u8]) -> (r: u64)
    requires
        b@.len() >= 8,
    ensures
        r == u64_from_be(b@),
{
    (b[0] as u64) << 56u64 | (b[1] as u64) << 48u64 | (b[2] as u64) << 40u64
        | (b[3] as u64) << 32u64 | (b[4] as u64) << 24u64 | (b[5] as u64) << 16u64
        | (b[6] as u64) << 8u64 | (b[7] as u64)
}

/// Reads the first 4 bytes of `b` as a big-endian unsigned integer.
pub fn decode_u32_be(b: &[u8]) -> (r: u32)
    requires
        b@.len() >= 4,
    ensures
        r == u32_from_be(b@),
{
    (b[0] as u32) << 24u32 | (b[1] as u32) << 16u32 | (b[2] as u32) << 8u32 | (b[3] as u32)
}

/// Reading back the 8 bytes of `n` gives `n`.
pub proof fn lemma_u64_be_round_trip(n: u64)
    ensures
        u64_from_be(u64_be_bytes(n)) == n,
{
    let b = u64_be_bytes(n);
    let (b0, b1, b2, b3, b4, b5, b6, b7) = (b[0], b[1], b[2], b[3], b[4], b[5], b[6], b[7]);
    assert((b0 as u64) << 56u64 | (b1 as u64) << 48u64 | (b2 as u64) << 40u64
        | (b3 as u64) << 32u64 | (b4 as u64) << 24u64 | (b5 as u64) << 16u64
        | (b6 as u64) << 8u64 | (b7 as u64) == n) by (bit_vector)
        requires
            b0 == ((n >> 56u64) & 0xffu64) as u8,
            b1 == ((n >> 48u64) & 0xffu64) as u8,
            b2 == ((n >> 40u64) & 0xffu64) as u8,
            b3 == ((n >> 32u64) & 0xffu64) as u8,
            b4 == ((n >> 24u64) & 0xffu64) as u8,
            b5 == ((n >> 16u64) & 0xffu64) as u8,
            b6 == ((n >> 8u64) & 0xffu64) as u8,
            b7 == (n & 0xffu64) as u8,
    ;
}

/// Reading back the 4 bytes of `n` gives `n`.
pub proof fn lemma_u32_be_round_trip(n: u32)
    ensures
        u32_from_be(u32_be_bytes(n)) == n,
{
    let b = u32_be_bytes(n);
    let (b0, b1, b2, b3) = (b[0], b[1], b[2], b[3]);
    assert((b0 as u32) << 24u32 | (b1 as u32) << 16u32 | (b2 as u32) << 8u32 | (b3 as u32) == n)
        by (bit_vector)
        requires
            b0 == ((n >> 24u32) & 0xffu32) as u8,
            b1 == ((n >> 16u32) & 0xffu32) as u8,
            b2 == ((n >> 8u32) & 0xffu32) as u8,
            b3 == (n & 0xffu32) as u8,
    ;
}

/// A preimage response spends exactly 8 bytes, big-endian, on its length prefix, and a
/// hint frame exactly 4.
pub proof fn lemma_prefix_widths(p: Seq<u8>, b: Seq<u8>)
    ensures
        preimage_response(p).len() == 8 + p.len(),
        preimage_response(p).take(8) == u64_be_bytes(p.len() as u64),
        preimage_response(p).skip(8) == p,
        hint_frame(b).len() == 4 + b.len(),
        hint_frame(b).take(4) == u32_be_bytes(b.len() as u32),
        hint_frame(b).skip(4) == b,
{
    assert(preimage_response(p).take(8) =~= u64_be_bytes(p.len() as u64));
    assert(preimage_response(p).skip(8) =~= p);
    assert(hint_frame(b).take(4) =~= u32_be_bytes(b.len() as u32));
    assert(hint_frame(b).skip(4) =~= b);
}

/// A preimage response followed by any bytes parses back to the payload and those bytes.
pub proof fn lemma_preimage_response_round_trip(p: Seq<u8>, rest: Seq<u8>)
    requires
        p.len() <= u64::MAX,
    ensures
        parse_preimage_response(preimage_response(p) + rest) == Some((p, rest)),
        u64_from_be(preimage_response(p) + rest) == p.len(),
{
    let s = preimage_response(p) + rest;
    lemma_u64_be_round_trip(p.len() as u64);
    assert(s.subrange(0, 8) =~= u64_be_bytes(p.len() as u64));
    assert(u64_from_be(s) == u64_from_be(s.subrange(0, 8)));
    assert(s.subrange(8, 8 + p.len() as int) =~= p);
    assert(s.skip(8 + p.len() as int) =~= rest);
}

/// A hint frame followed by any bytes parses back to the hint's bytes and those bytes.
pub proof fn lemma_hint_frame_round_trip(b: Seq<u8>, rest: Seq<u8>)
    requires
        b.len() <= u32::MAX,
    ensures
        parse_hint_frame(hint_frame(b) + rest) == Some((b, rest)),
{
    let s = hint_frame(b) + rest;
    lemma_u32_be_round_trip(b.len() as u32);
    assert(s.subrange(0, 4) =~= u32_be_bytes(b.len() as u32));
    assert(u32_from_be(s) == u32_from_be(s.subrange(0, 4)));
    assert(s.subrange(4, 4 + b.len() as int) =~= b);
    assert(s.skip(4 + b.len() as int) =~= rest);
}

} // verus!
