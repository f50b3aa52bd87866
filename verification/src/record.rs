//! The credential record and its serialized form.

use crate::codec::{decode_string, encode_string};
use crate::layout::{fits, serialized, stored_hash, RECORD_SPACE};
use vstd::prelude::*;

verus! {

/// A credential record. Its one field is the hash, which the store keeps as
/// an opaque string.
#[derive(Clone, Debug, PartialEq, Eq)]
pub struct Credential {
    pub hash: String,
}

impl View for Credential {
    type V = Seq<char>;

    /// A record is its hash, as a sequence of characters.
    open spec fn view(&self) -> Seq<char> {
        self.hash@
    }
}

impl Credential {
    /// The serialized form of the record: the length of the hash and the
    /// hash. `None` when that is longer than a region.
    pub fn try_serialize(&self) -> (out: Option<Vec<u8>>)
        ensures
            out is Some <==> fits(self@),
            out matches Some(bytes) ==> bytes@ == serialized(self@),
    {
        match encode_string(&self.hash) {
            Some(bytes) => {
                if bytes.len() <= RECORD_SPACE {
                    Some(bytes)
                } else {
                    None
                }
            },
            None => None,
        }
    }

    /// Reads a record from `data`, the content of a region or the front of
    /// one. `None` when `data` does not start with a string behind its
    /// length.
    pub fn try_deserialize(data: &[u8]) -> (out: Option<Credential>)
        ensures
            out is Some <==> stored_hash(data@) is Some,
            out matches Some(record) ==> stored_hash(data@) == Some(record@),
    {
        match decode_string(data) {
            Some(hash) => Some(Credential { hash }),
            None => None,
        }
    }
}

} // verus!
