//! A write-once store of credential records.
//!
//! A record holds one hash string in a storage region of fixed size on a
//! ledger. The one operation, `store_credential`, creates the record: it
//! checks that the authority signed, that the slot is free, that the
//! authority can pay the allocation and that the record fits the region, and
//! only then writes. Nothing updates, reads or deletes a record.
//!
//! - `layout` says, as spec functions over bytes, what a region holds.
//! - `record` has the record and its serialized form.
//! - `store` has the operation and the context it works on.
//! - `laws` states what holds of every request.
//!
//! A record is serialized by the Borsh codec of `anchor_lang`, which the
//! private module `codec` calls.

mod codec;
pub mod laws;
pub mod layout;
pub mod record;
pub mod store;

pub use record::Credential;
pub use store::{
    store_credential, Authority, RecordSlot, StoreCredential, StoreError, SystemProgram,
};
