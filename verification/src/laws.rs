//! What holds of every request, stated over `store_outcome` and
//! `store_effect`, the two spec functions by which `store_credential`
//! describes itself.

use crate::layout::{
    fits, lemma_record_round_trip, stored_hash, LENGTH_PREFIX_LEN, MAX_HASH_BYTES, RECORD_SPACE,
};
use crate::store::{store_effect, store_outcome, StoreError, StoreState};
use vstd::prelude::*;
use vstd::utf8::*;

verus! {

/// A hash fits a region exactly when its UTF-8 form and the bytes of its
/// length together take no more than the region, which is when the UTF-8
/// form has at most `MAX_HASH_BYTES` bytes.
pub proof fn law_fits_up_to_max_hash_bytes(hash: Seq<char>)
    ensures
        fits(hash) <==> LENGTH_PREFIX_LEN + encode_utf8(hash).len() <= RECORD_SPACE,
        fits(hash) <==> encode_utf8(hash).len() <= MAX_HASH_BYTES,
        LENGTH_PREFIX_LEN + MAX_HASH_BYTES == RECORD_SPACE,
{
}

/// A hash of ASCII characters only fits a region exactly when it has at most
/// `MAX_HASH_BYTES` characters.
pub proof fn law_ascii_hash_fits_by_length(hash: Seq<char>)
    requires
        is_ascii_chars(hash),
    ensures
        fits(hash) <==> hash.len() <= MAX_HASH_BYTES,
{
    is_ascii_chars_encode_utf8(hash);
}

/// A signed and funded request for a free slot, with a hash that fits,
/// succeeds. The region that it leaves in the slot has `RECORD_SPACE` bytes
/// whatever the length of the hash, the record in it reads back as the hash
/// that was given, and the authority has paid the cost of the allocation.
pub proof fn law_fresh_slot_takes_the_hash(pre: StoreState, hash: Seq<char>)
    requires
        !pre.credential.is_initialized(),
        fits(hash),
        pre.authority.is_signer,
        pre.authority.lamports >= pre.system_program.allocation_cost,
    ensures
        store_outcome(pre, hash) is Ok,
        store_effect(pre, hash).credential.data.len() == RECORD_SPACE,
        stored_hash(store_effect(pre, hash).credential.data) == Some(hash),
        store_effect(pre, hash).authority.lamports == pre.authority.lamports
            - pre.system_program.allocation_cost,
{
    lemma_record_round_trip(hash);
}

/// A signed request for a slot that is taken fails with
/// `AlreadyInitialized`, and the slot keeps what it held.
pub proof fn law_taken_slot_is_refused(pre: StoreState, hash: Seq<char>)
    requires
        pre.credential.is_initialized(),
        pre.authority.is_signer,
    ensures
        store_outcome(pre, hash) == Err::<(), StoreError>(StoreError::AlreadyInitialized),
        store_effect(pre, hash) == pre,
        stored_hash(store_effect(pre, hash).credential.data) == stored_hash(
            pre.credential.data,
        ),
{
}

/// A request that the authority has not signed fails with `Unauthorized`,
/// whatever else holds of it, and nothing is created or paid.
pub proof fn law_unsigned_request_is_refused(pre: StoreState, hash: Seq<char>)
    requires
        !pre.authority.is_signer,
    ensures
        store_outcome(pre, hash) == Err::<(), StoreError>(StoreError::Unauthorized),
        store_effect(pre, hash) == pre,
{
}

/// A signed request for a free slot fails with `InsufficientFunds` when the
/// authority holds less than the allocation costs, and nothing is created or
/// paid.
pub proof fn law_unfunded_request_is_refused(pre: StoreState, hash: Seq<char>)
    requires
        pre.authority.is_signer,
        !pre.credential.is_initialized(),
        pre.authority.lamports < pre.system_program.allocation_cost,
    ensures
        store_outcome(pre, hash) == Err::<(), StoreError>(StoreError::InsufficientFunds),
        store_effect(pre, hash) == pre,
{
}

/// A signed and funded request for a free slot fails with `CapacityExceeded`
/// when the record does not fit the region, and nothing is created or paid.
pub proof fn law_oversized_record_is_refused(pre: StoreState, hash: Seq<char>)
    requires
        !fits(hash),
        pre.authority.is_signer,
        !pre.credential.is_initialized(),
        pre.authority.lamports >= pre.system_program.allocation_cost,
    ensures
        store_outcome(pre, hash) == Err::<(), StoreError>(StoreError::CapacityExceeded),
        store_effect(pre, hash) == pre,
{
}

/// A request that failed fails in the same way when it is made again: the
/// failure left the state as it was.
pub proof fn law_failure_repeats(pre: StoreState, hash: Seq<char>)
    requires
        store_outcome(pre, hash) is Err,
    ensures
        store_effect(pre, hash) == pre,
        store_outcome(store_effect(pre, hash), hash) == store_outcome(pre, hash),
        store_effect(store_effect(pre, hash), hash) == store_effect(pre, hash),
{
}

/// A slot is written once. After a request that succeeded, every further
/// request for the same slot fails with `AlreadyInitialized`, whatever hash
/// it brings, and the record stays as the first request wrote it.
pub proof fn law_record_is_written_once(pre: StoreState, first: Seq<char>, second: Seq<char>)
    requires
        store_outcome(pre, first) is Ok,
    ensures
        store_outcome(store_effect(pre, first), second) == Err::<(), StoreError>(
            StoreError::AlreadyInitialized,
        ),
        store_effect(store_effect(pre, first), second) == store_effect(pre, first),
        stored_hash(store_effect(store_effect(pre, first), second).credential.data) == Some(
            first,
        ),
{
    lemma_record_round_trip(first);
}

/// The record lives at the address that the request names: the address of
/// the slot is the same after every request, and so does not depend on the
/// hash.
pub proof fn law_address_does_not_depend_on_the_hash(
    pre: StoreState,
    first: Seq<char>,
    second: Seq<char>,
)
    ensures
        store_effect(pre, first).credential.address == pre.credential.address,
        store_effect(pre, first).credential.address == store_effect(
            pre,
            second,
        ).credential.address,
{
}

/// A request ends in exactly one way: it succeeds, or it fails with the
/// error of the first check that it does not pass.
pub proof fn law_outcome_is_decided_by_the_first_failed_check(pre: StoreState, hash: Seq<char>)
    ensures
        store_outcome(pre, hash) is Ok <==> (pre.authority.is_signer
            && !pre.credential.is_initialized() && pre.authority.lamports
            >= pre.system_program.allocation_cost && fits(hash)),
        store_outcome(pre, hash) == Err::<(), StoreError>(StoreError::Unauthorized) <==> (
        !pre.authority.is_signer),
        store_outcome(pre, hash) == Err::<(), StoreError>(StoreError::AlreadyInitialized) <==> (
        pre.authority.is_signer && pre.credential.is_initialized()),
        store_outcome(pre, hash) == Err::<(), StoreError>(StoreError::InsufficientFunds) <==> (
        pre.authority.is_signer && !pre.credential.is_initialized() && pre.authority.lamports
            < pre.system_program.allocation_cost),
        store_outcome(pre, hash) == Err::<(), StoreError>(StoreError::CapacityExceeded) <==> (
        pre.authority.is_signer && !pre.credential.is_initialized() && pre.authority.lamports
            >= pre.system_program.allocation_cost && !fits(hash)),
{
}

} // verus!
