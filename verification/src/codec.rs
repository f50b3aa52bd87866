//! The string codec of `anchor_lang`, which is Borsh.
//!
//! These two functions are the only code of the library that Verus does not
//! check: it takes their contracts on trust. Each contract restates, over the
//! spec functions of `layout`, how Borsh frames a string: the byte length as a
//! little-endian `u32`, then the UTF-8 bytes.

use crate::layout::{carried_string, carries_string, length_prefixed};
use vstd::prelude::*;
use vstd::utf8::*;

verus! {

/// Calls `anchor_lang::AnchorSerialize::serialize` for a `String` with an
/// empty `Vec<u8>` as the writer.
///
/// Trusted: the call fails exactly when the UTF-8 length of `s` does not fit
/// a `u32`, and otherwise the writer holds that length in four little-endian
/// bytes followed by the UTF-8 bytes of `s`.
#[verifier::external_body]
pub(crate) fn encode_string(s: &String) -> (out: Option<Vec<u8>>)
    ensures
        out is Some <==> encode_utf8(s@).len() <= u32::MAX,
        out matches Some(bytes) ==> bytes@ == length_prefixed(encode_utf8(s@)),
{
    let mut buf: Vec<u8> = Vec::new();
    match anchor_lang::AnchorSerialize::serialize(s, &mut buf) {
        Ok(()) => Some(buf),
        Err(_) => None,
    }
}

/// Calls `anchor_lang::AnchorDeserialize::deserialize` for a `String` on
/// `data`.
///
/// Trusted: the call succeeds exactly when `data` starts with four bytes of
/// a little-endian length, holds at least that many bytes behind them, and
/// those bytes are valid UTF-8; it then returns the string they encode.
/// Bytes that follow the string are left unread.
#[verifier::external_body]
pub(crate) fn decode_string(data: &[u8]) -> (out: Option<String>)
    ensures
        out is Some <==> carries_string(data@),
        out matches Some(s) ==> s@ == carried_string(data@),
{
    let mut rest: &[u8] = data;
    let read: Result<String, _> = anchor_lang::AnchorDeserialize::deserialize(&mut rest);
    match read {
        Ok(s) => Some(s),
        Err(_) => None,
    }
}

} // verus!
