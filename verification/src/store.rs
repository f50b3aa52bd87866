//! The store operation and the accounts it works on.
//!
//! The ledger verifies signatures, keeps balances and owns the storage. The
//! operation sees of all that only what its context hands it as plain
//! values, decides, and leaves in the context what the ledger is to hold
//! afterwards. It either does all of its work or none.

use crate::layout::{
    fits, lemma_record_round_trip, lemma_serialized_len, record_image, stored_hash, zeros,
    RECORD_SPACE,
};
use crate::record::Credential;
use vstd::prelude::*;

verus! {

/// Why a request was turned down.
#[derive(Clone, Copy, Debug, PartialEq, Eq, Structural)]
pub enum StoreError {
    /// The slot already holds a record.
    AlreadyInitialized,
    /// The authority has not signed the request.
    Unauthorized,
    /// The authority cannot pay for the allocation.
    InsufficientFunds,
    /// The serialized record is longer than the region.
    CapacityExceeded,
}

/// A record slot: one storage location of the ledger. The request names
/// its address. `data` is empty as long as nothing was created there, and the
/// content of the region afterwards.
#[derive(Clone, Debug, PartialEq, Eq)]
pub struct RecordSlot {
    pub address: [u8; 32],
    pub data: Vec<u8>,
}

/// What a slot stands for: its address and the bytes it holds.
pub struct SlotState {
    pub address: [u8; 32],
    pub data: Seq<u8>,
}

impl SlotState {
    /// Whether something was created in the slot already.
    pub open spec fn is_initialized(self) -> bool {
        self.data.len() != 0
    }
}

impl View for RecordSlot {
    type V = SlotState;

    open spec fn view(&self) -> SlotState {
        SlotState { address: self.address, data: self.data@ }
    }
}

impl RecordSlot {
    /// Whether something was created in this slot already.
    pub fn is_initialized(&self) -> (taken: bool)
        ensures
            taken == self@.is_initialized(),
    {
        self.data.len() != 0
    }
}

/// The authority of a request: whether the ledger found its signature on
/// the request, and the balance it pays from.
#[derive(Clone, Copy, Debug, PartialEq, Eq, Structural)]
pub struct Authority {
    pub is_signer: bool,
    pub lamports: u64,
}

/// The allocation facility of the ledger, as far as the operation reads it:
/// what it charges the payer for a region of `RECORD_SPACE` bytes.
#[derive(Clone, Copy, Debug, PartialEq, Eq, Structural)]
pub struct SystemProgram {
    pub allocation_cost: u64,
}

/// The context of one store request: the slot to create, the authority that
/// signs and pays, and the allocation facility.
#[derive(Clone, Debug, PartialEq, Eq)]
pub struct StoreCredential {
    pub credential: RecordSlot,
    pub authority: Authority,
    pub system_program: SystemProgram,
}

/// What a context stands for: the slot, the authority and the facility.
pub struct StoreState {
    pub credential: SlotState,
    pub authority: Authority,
    pub system_program: SystemProgram,
}

impl View for StoreCredential {
    type V = StoreState;

    open spec fn view(&self) -> StoreState {
        StoreState {
            credential: self.credential@,
            authority: self.authority,
            system_program: self.system_program,
        }
    }
}

/// How a request to store `hash` ends in state `pre`. The checks come in
/// this order, and the first that fails names the error: the signature, the
/// slot, the balance, the size of the record.
pub open spec fn store_outcome(pre: StoreState, hash: Seq<char>) -> Result<(), StoreError> {
    if !pre.authority.is_signer {
        Err(StoreError::Unauthorized)
    } else if pre.credential.is_initialized() {
        Err(StoreError::AlreadyInitialized)
    } else if pre.authority.lamports < pre.system_program.allocation_cost {
        Err(StoreError::InsufficientFunds)
    } else if !fits(hash) {
        Err(StoreError::CapacityExceeded)
    } else {
        Ok(())
    }
}

/// The state that a request to store `hash` leaves behind. A request that
/// succeeds fills the slot with the record and takes the cost of the
/// allocation from the authority; one that fails changes nothing. The slot
/// keeps its address either way: where a record lives does not depend on
/// what it holds.
pub open spec fn store_effect(pre: StoreState, hash: Seq<char>) -> StoreState {
    if store_outcome(pre, hash) is Ok {
        StoreState {
            credential: SlotState { address: pre.credential.address, data: record_image(hash) },
            authority: Authority {
                is_signer: pre.authority.is_signer,
                lamports: (pre.authority.lamports - pre.system_program.allocation_cost) as u64,
            },
            system_program: pre.system_program,
        }
    } else {
        pre
    }
}

/// Fills `data` with zeros up to the size of a region.
fn pad_to_region(data: &mut Vec<u8>)
    requires
        old(data)@.len() <= RECORD_SPACE,
    ensures
        final(data)@ == old(data)@ + zeros((RECORD_SPACE - old(data)@.len()) as nat),
{
    while data.len() < RECORD_SPACE
        invariant
            old(data)@.len() <= data@.len() <= RECORD_SPACE,
            data@ == old(data)@ + zeros((data@.len() - old(data)@.len()) as nat),
        decreases RECORD_SPACE - data@.len(),
    {
        data.push(0u8);
    }
}

/// Creates the record of `ctx.credential` and writes `hash` into it.
///
/// The request is turned down, and `ctx` left as it was, when the authority
/// has not signed, when the slot is taken, when the authority cannot pay the
/// allocation, or when the record does not fit the region. Otherwise the
/// slot holds the record, padded with zeros to `RECORD_SPACE` bytes, and the
/// authority has paid `ctx.system_program.allocation_cost`. A record fits
/// when the hash and the four bytes of its length take no more than
/// `RECORD_SPACE` bytes.
pub fn store_credential(ctx: &mut StoreCredential, hash: String) -> (res: Result<(), StoreError>)
    ensures
        res == store_outcome(old(ctx)@, hash@),
        final(ctx)@ == store_effect(old(ctx)@, hash@),
        res is Ok ==> final(ctx).credential@.data.len() == RECORD_SPACE,
        res is Ok ==> stored_hash(final(ctx).credential@.data) == Some(hash@),
{
    if !ctx.authority.is_signer {
        return Err(StoreError::Unauthorized);
    }
    if ctx.credential.is_initialized() {
        return Err(StoreError::AlreadyInitialized);
    }
    let cost = ctx.system_program.allocation_cost;
    if ctx.authority.lamports < cost {
        return Err(StoreError::InsufficientFunds);
    }
    let record = Credential { hash };
    let mut data = match record.try_serialize() {
        Some(bytes) => bytes,
        None => {
            return Err(StoreError::CapacityExceeded);
        },
    };
    proof {
        lemma_serialized_len(hash@);
        lemma_record_round_trip(hash@);
    }
    pad_to_region(&mut data);
    ctx.credential.data = data;
    ctx.authority.lamports = ctx.authority.lamports - cost;
    Ok(())
}

} // verus!
