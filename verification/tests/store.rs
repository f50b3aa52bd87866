use credential_contract::layout::RECORD_SPACE;
use credential_contract::{
    store_credential, Authority, Credential, RecordSlot, StoreCredential, StoreError,
    SystemProgram,
};

const COST: u64 = 1_336_320;
const ADDRESS: [u8; 32] = [7; 32];

fn fresh(is_signer: bool, lamports: u64) -> StoreCredential {
    StoreCredential {
        credential: RecordSlot { address: ADDRESS, data: Vec::new() },
        authority: Authority { is_signer, lamports },
        system_program: SystemProgram { allocation_cost: COST },
    }
}

fn taken(hash: &str) -> StoreCredential {
    let mut ctx = fresh(true, COST);
    assert_eq!(store_credential(&mut ctx, hash.to_string()), Ok(()));
    ctx
}

fn image(hash: &str) -> Vec<u8> {
    let mut data = vec![hash.len() as u8, 0, 0, 0];
    data.extend_from_slice(hash.as_bytes());
    data.resize(RECORD_SPACE, 0);
    data
}

fn sixty_characters() -> String {
    let hash = "abc123...".repeat(7)[..60].to_string();
    assert_eq!(hash.len(), 60);
    assert_eq!(hash.chars().count(), 60);
    hash
}

#[test]
fn sixty_character_hash_is_stored_on_a_fresh_slot() {
    let hash = sixty_characters();
    let mut ctx = fresh(true, 5_000_000);
    assert_eq!(store_credential(&mut ctx, hash.clone()), Ok(()));
    assert_eq!(ctx.credential.data.len(), 64);
    assert_eq!(&ctx.credential.data[..4], &[60, 0, 0, 0]);
    assert_eq!(&ctx.credential.data[4..], hash.as_bytes());
    assert_eq!(ctx.authority.lamports, 5_000_000 - COST);
    let record = Credential::try_deserialize(&ctx.credential.data).unwrap();
    assert_eq!(record.hash, hash);
    assert_eq!(record.hash.len(), 60);
}

#[test]
fn second_request_after_the_sixty_character_hash_is_already_initialized() {
    let hash = sixty_characters();
    let mut ctx = fresh(true, 5_000_000);
    assert_eq!(store_credential(&mut ctx, hash.clone()), Ok(()));
    let before = ctx.clone();
    assert_eq!(
        store_credential(&mut ctx, "def456".to_string()),
        Err(StoreError::AlreadyInitialized)
    );
    assert_eq!(ctx, before);
    assert_eq!(
        Credential::try_deserialize(&ctx.credential.data),
        Some(Credential { hash })
    );
}

#[test]
fn repeated_six_character_hash_of_sixty_characters_is_stored() {
    let hash = "abc123".repeat(10);
    assert_eq!(hash.len(), 60);
    let mut ctx = fresh(true, COST);
    assert_eq!(store_credential(&mut ctx, hash.clone()), Ok(()));
    assert_eq!(ctx.credential.data, image(&hash));
    assert_eq!(
        Credential::try_deserialize(&ctx.credential.data),
        Some(Credential { hash })
    );
}

#[test]
fn stored_hash_reads_back_exactly() {
    let hash = "9f86d081884c7d659a2feaa0c55ad015a3bf4f1b2b0b822cd15d6c15".to_string();
    assert_eq!(hash.len(), 56);
    let mut ctx = fresh(true, COST);
    assert_eq!(store_credential(&mut ctx, hash.clone()), Ok(()));
    let record = Credential::try_deserialize(&ctx.credential.data).unwrap();
    assert_eq!(record.hash, hash);
}

#[test]
fn every_length_that_fits_is_stored_and_read_back() {
    for n in 0..=60usize {
        let hash = "k".repeat(n);
        let mut ctx = fresh(true, COST);
        assert_eq!(store_credential(&mut ctx, hash.clone()), Ok(()));
        assert_eq!(ctx.credential.data, image(&hash));
        assert_eq!(
            Credential::try_deserialize(&ctx.credential.data),
            Some(Credential { hash })
        );
    }
}

#[test]
fn success_fills_the_whole_region() {
    let mut ctx = fresh(true, COST);
    assert_eq!(store_credential(&mut ctx, "abc".to_string()), Ok(()));
    assert_eq!(ctx.credential.data.len(), 64);
    assert_eq!(&ctx.credential.data[..4], &[3, 0, 0, 0]);
    assert_eq!(&ctx.credential.data[4..7], b"abc");
    assert!(ctx.credential.data[7..].iter().all(|b| *b == 0));
}

#[test]
fn success_debits_the_allocation_cost() {
    let mut ctx = fresh(true, 5_000_000);
    assert_eq!(store_credential(&mut ctx, "abc".to_string()), Ok(()));
    assert_eq!(ctx.authority.lamports, 5_000_000 - COST);
    assert_eq!(ctx.authority, Authority { is_signer: true, lamports: 3_663_680 });
    assert_eq!(ctx.system_program, SystemProgram { allocation_cost: COST });
}

#[test]
fn exact_balance_pays_the_allocation() {
    let mut ctx = fresh(true, COST);
    assert_eq!(store_credential(&mut ctx, "abc".to_string()), Ok(()));
    assert_eq!(ctx.authority.lamports, 0);
    assert!(ctx.credential.is_initialized());
}

#[test]
fn free_allocation_leaves_the_balance() {
    let mut ctx = fresh(true, 0);
    ctx.system_program.allocation_cost = 0;
    assert_eq!(store_credential(&mut ctx, "abc".to_string()), Ok(()));
    assert_eq!(ctx.authority.lamports, 0);
    assert_eq!(ctx.credential.data, image("abc"));
}

#[test]
fn empty_hash_is_stored() {
    let mut ctx = fresh(true, COST);
    assert_eq!(store_credential(&mut ctx, String::new()), Ok(()));
    assert_eq!(ctx.credential.data, vec![0u8; 64]);
    assert_eq!(
        Credential::try_deserialize(&ctx.credential.data),
        Some(Credential { hash: String::new() })
    );
}

#[test]
fn taken_slot_is_refused_whatever_it_holds() {
    let mut ctx = fresh(true, 5_000_000);
    ctx.credential.data = vec![7];
    assert_eq!(
        store_credential(&mut ctx, "abc".to_string()),
        Err(StoreError::AlreadyInitialized)
    );
    assert_eq!(ctx.credential.data, vec![7]);
    assert_eq!(ctx.authority.lamports, 5_000_000);
}

#[test]
fn taken_slot_is_reported_before_balance_and_size() {
    let mut ctx = taken("abc");
    assert_eq!(ctx.authority.lamports, 0);
    let before = ctx.clone();
    assert_eq!(
        store_credential(&mut ctx, "x".repeat(100)),
        Err(StoreError::AlreadyInitialized)
    );
    assert_eq!(ctx, before);
}

#[test]
fn unsigned_request_is_unauthorized() {
    let mut ctx = fresh(false, 5_000_000);
    let before = ctx.clone();
    assert_eq!(
        store_credential(&mut ctx, "abc".to_string()),
        Err(StoreError::Unauthorized)
    );
    assert_eq!(ctx, before);
    assert!(!ctx.credential.is_initialized());
}

#[test]
fn unsigned_request_is_reported_before_everything_else() {
    let mut ctx = taken("abc");
    ctx.authority.is_signer = false;
    let before = ctx.clone();
    assert_eq!(
        store_credential(&mut ctx, "x".repeat(100)),
        Err(StoreError::Unauthorized)
    );
    assert_eq!(ctx, before);
}

#[test]
fn poor_authority_has_insufficient_funds() {
    let mut ctx = fresh(true, COST - 1);
    let before = ctx.clone();
    assert_eq!(
        store_credential(&mut ctx, "abc".to_string()),
        Err(StoreError::InsufficientFunds)
    );
    assert_eq!(ctx, before);
    assert!(ctx.credential.data.is_empty());
}

#[test]
fn insufficient_funds_is_reported_before_size() {
    let mut ctx = fresh(true, 0);
    assert_eq!(
        store_credential(&mut ctx, "x".repeat(100)),
        Err(StoreError::InsufficientFunds)
    );
}

#[test]
fn sixty_one_character_hash_exceeds_capacity() {
    let hash = "abc123...".repeat(7)[..61].to_string();
    assert_eq!(hash.len(), 61);
    let mut ctx = fresh(true, 5_000_000);
    let before = ctx.clone();
    assert_eq!(store_credential(&mut ctx, hash), Err(StoreError::CapacityExceeded));
    assert_eq!(ctx, before);
    assert!(ctx.credential.data.is_empty());
    assert_eq!(ctx.authority.lamports, 5_000_000);
}

#[test]
fn capacity_ends_at_sixty_bytes() {
    let mut ctx = fresh(true, COST);
    assert_eq!(
        store_credential(&mut ctx, "h".repeat(61)),
        Err(StoreError::CapacityExceeded)
    );
    assert!(!ctx.credential.is_initialized());
    assert_eq!(store_credential(&mut ctx, "h".repeat(60)), Ok(()));
    assert!(ctx.credential.is_initialized());
}

#[test]
fn capacity_counts_bytes_not_characters() {
    let fits = "\u{e9}".repeat(30);
    let mut ctx = fresh(true, COST);
    assert_eq!(store_credential(&mut ctx, fits.clone()), Ok(()));
    assert_eq!(&ctx.credential.data[..4], &[60, 0, 0, 0]);
    assert_eq!(&ctx.credential.data[4..], fits.as_bytes());

    let too_long = "\u{e9}".repeat(31);
    assert_eq!(too_long.chars().count(), 31);
    let mut ctx = fresh(true, COST);
    assert_eq!(
        store_credential(&mut ctx, too_long),
        Err(StoreError::CapacityExceeded)
    );
}

#[test]
fn four_byte_characters_are_stored() {
    let hash = "\u{1f511}".repeat(15);
    let mut ctx = fresh(true, COST);
    assert_eq!(store_credential(&mut ctx, hash.clone()), Ok(()));
    assert_eq!(
        Credential::try_deserialize(&ctx.credential.data),
        Some(Credential { hash })
    );
    let mut ctx = fresh(true, COST);
    assert_eq!(
        store_credential(&mut ctx, "\u{1f511}".repeat(16)),
        Err(StoreError::CapacityExceeded)
    );
}

#[test]
fn failed_request_fails_again_in_the_same_way() {
    let mut unsigned = fresh(false, COST);
    let mut poor = fresh(true, 1);
    let mut full = taken("abc");
    let mut long = fresh(true, COST);
    for _ in 0..3 {
        assert_eq!(
            store_credential(&mut unsigned, "abc".to_string()),
            Err(StoreError::Unauthorized)
        );
        assert_eq!(
            store_credential(&mut poor, "abc".to_string()),
            Err(StoreError::InsufficientFunds)
        );
        assert_eq!(
            store_credential(&mut full, "abc".to_string()),
            Err(StoreError::AlreadyInitialized)
        );
        assert_eq!(
            store_credential(&mut long, "x".repeat(61)),
            Err(StoreError::CapacityExceeded)
        );
    }
    assert_eq!(unsigned, fresh(false, COST));
    assert_eq!(poor, fresh(true, 1));
    assert_eq!(full, taken("abc"));
    assert_eq!(long, fresh(true, COST));
}

#[test]
fn record_lives_at_the_address_of_the_request() {
    let mut one = fresh(true, COST);
    let mut other = fresh(true, COST);
    other.credential.address = [9; 32];
    assert_eq!(store_credential(&mut one, "abc".to_string()), Ok(()));
    assert_eq!(store_credential(&mut other, "abc".to_string()), Ok(()));
    assert_eq!(one.credential.address, ADDRESS);
    assert_eq!(other.credential.address, [9; 32]);
    assert_eq!(one.credential.data, other.credential.data);
}

#[test]
fn slot_reports_whether_it_is_taken() {
    assert!(!RecordSlot { address: ADDRESS, data: Vec::new() }.is_initialized());
    assert!(RecordSlot { address: ADDRESS, data: vec![0] }.is_initialized());
    assert!(taken("abc").credential.is_initialized());
}
