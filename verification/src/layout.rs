//! Byte layout of a credential record inside its storage region.
//!
//! A region is `RECORD_SPACE` bytes long. A record occupies its front: the
//! byte length of the hash as a little-endian `u32`, and the hash in UTF-8.
//! The rest of the region is zero. Nothing else is counted inside a region,
//! so the longest hash that a region takes has `MAX_HASH_BYTES` bytes.

use vstd::prelude::*;
use vstd::utf8::*;

verus! {

/// Size in bytes of the storage region reserved for every record.
pub const RECORD_SPACE: usize = 64;

/// Number of bytes taken by the length that precedes the hash.
pub const LENGTH_PREFIX_LEN: usize = 4;

/// Largest UTF-8 length of a hash that still fits a region.
pub const MAX_HASH_BYTES: usize = 60;

/// The four bytes of `n` as a little-endian `u32`.
pub open spec fn u32_le(n: nat) -> Seq<u8> {
    seq![
        (n % 256) as u8,
        ((n / 256) % 256) as u8,
        ((n / 65536) % 256) as u8,
        ((n / 16777216) % 256) as u8,
    ]
}

/// The number that the first four bytes of `bytes` spell as a little-endian
/// `u32`.
pub open spec fn u32_from_le(bytes: Seq<u8>) -> nat
    recommends
        bytes.len() >= 4,
{
    (bytes[0] as nat) + 256 * (bytes[1] as nat) + 65536 * (bytes[2] as nat) + 16777216 * (
    bytes[3] as nat)
}

/// `body` behind its own length.
pub open spec fn length_prefixed(body: Seq<u8>) -> Seq<u8> {
    u32_le(body.len()) + body
}

/// The bytes that a length at the front of `data` announces.
pub open spec fn prefixed_body(data: Seq<u8>) -> Seq<u8>
    recommends
        data.len() >= 4,
        data.len() - 4 >= u32_from_le(data),
{
    data.subrange(4, 4 + u32_from_le(data) as int)
}

/// Whether `data` starts with a length, that many further bytes, and those
/// bytes are valid UTF-8. Bytes behind them are not looked at.
pub open spec fn carries_string(data: Seq<u8>) -> bool {
    &&& data.len() >= 4
    &&& data.len() - 4 >= u32_from_le(data)
    &&& valid_utf8(prefixed_body(data))
}

/// The string at the front of `data`.
pub open spec fn carried_string(data: Seq<u8>) -> Seq<char>
    recommends
        carries_string(data),
{
    decode_utf8(prefixed_body(data))
}

/// The serialized form of a record whose hash is `hash`: the hash in UTF-8
/// behind its length.
pub open spec fn serialized(hash: Seq<char>) -> Seq<u8> {
    length_prefixed(encode_utf8(hash))
}

/// Length of the serialized form.
pub open spec fn serialized_len(hash: Seq<char>) -> nat {
    LENGTH_PREFIX_LEN as nat + encode_utf8(hash).len()
}

/// Whether a record with this hash fits a region.
pub open spec fn fits(hash: Seq<char>) -> bool {
    serialized_len(hash) <= RECORD_SPACE
}

/// `n` zero bytes.
pub open spec fn zeros(n: nat) -> Seq<u8> {
    Seq::new(n, |i: int| 0u8)
}

/// What a region holds once a record with this hash is stored in it.
pub open spec fn record_image(hash: Seq<char>) -> Seq<u8>
    recommends
        fits(hash),
{
    serialized(hash) + zeros((RECORD_SPACE - serialized_len(hash)) as nat)
}

/// The hash of the record that `data` holds, if it holds one: `data` must
/// start with a string behind its length.
pub open spec fn stored_hash(data: Seq<u8>) -> Option<Seq<char>> {
    if carries_string(data) {
        Some(carried_string(data))
    } else {
        None
    }
}

/// Reading a little-endian `u32` gives back the number that was written.
pub proof fn lemma_u32_le_round_trip(n: nat)
    requires
        n <= u32::MAX,
    ensures
        u32_le(n).len() == 4,
        u32_from_le(u32_le(n)) == n,
{
}

/// The length of the serialized form is the length of its parts.
pub proof fn lemma_serialized_len(hash: Seq<char>)
    ensures
        serialized(hash).len() == serialized_len(hash),
{
}

/// A string behind its length is read back, whatever follows it.
pub proof fn lemma_length_prefixed_carries(s: Seq<char>, tail: Seq<u8>)
    requires
        encode_utf8(s).len() <= u32::MAX,
    ensures
        carries_string(length_prefixed(encode_utf8(s)) + tail),
        carried_string(length_prefixed(encode_utf8(s)) + tail) == s,
{
    let body = encode_utf8(s);
    let data = length_prefixed(body) + tail;
    lemma_u32_le_round_trip(body.len());
    assert(data[0] == u32_le(body.len())[0]);
    assert(data[1] == u32_le(body.len())[1]);
    assert(data[2] == u32_le(body.len())[2]);
    assert(data[3] == u32_le(body.len())[3]);
    assert(u32_from_le(data) == body.len());
    assert(prefixed_body(data) =~= body);
    encode_utf8_valid_utf8(s);
    encode_utf8_decode_utf8(s);
}

/// A record that fits fills the region exactly, and reading the region
/// gives back the hash that was written.
pub proof fn lemma_record_round_trip(hash: Seq<char>)
    requires
        fits(hash),
    ensures
        record_image(hash).len() == RECORD_SPACE,
        stored_hash(record_image(hash)) == Some(hash),
{
    lemma_serialized_len(hash);
    lemma_length_prefixed_carries(hash, zeros((RECORD_SPACE - serialized_len(hash)) as nat));
}

} // verus!
