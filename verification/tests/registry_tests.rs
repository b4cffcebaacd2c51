use identity_program::registry::initialize;
use identity_program::registry::revoke_credential;
use identity_program::registry::same_key;
use identity_program::registry::store_credential;
use identity_program::registry::timestamp;
use identity_program::registry::verify_credential;
use identity_program::registry::CredentialRegistry;
use identity_program::types::Credential;
use identity_program::types::CredentialRevokedEvent;
use identity_program::types::CredentialStoredEvent;
use identity_program::types::ErrorCode;
use identity_program::types::ProgramState;

const OWNER: [u8; 32] = [0xa1; 32];
const STRANGER: [u8; 32] = [0xb2; 32];
const HASH: [u8; 32] = [0x11; 32];

fn fresh() -> (ProgramState, CredentialRegistry) {
    let mut slot = None;
    initialize(&mut slot, OWNER).unwrap();
    (slot.unwrap(), CredentialRegistry::new())
}

#[test]
fn initialize_zeroes_the_counters() {
    let mut slot = None;
    assert_eq!(initialize(&mut slot, OWNER), Ok(()));
    assert_eq!(
        slot,
        Some(ProgramState {
            authority: OWNER,
            verification_count: 0,
            credential_count: 0,
        })
    );
}

#[test]
fn initialize_twice_is_refused_and_keeps_the_counters() {
    let mut slot = Some(ProgramState {
        authority: OWNER,
        verification_count: 4,
        credential_count: 5,
    });
    assert_eq!(
        initialize(&mut slot, STRANGER),
        Err(ErrorCode::AlreadyInitialized)
    );
    assert_eq!(
        slot,
        Some(ProgramState {
            authority: OWNER,
            verification_count: 4,
            credential_count: 5,
        })
    );
}

#[test]
fn store_then_revoke() {
    let (mut state, mut registry) = fresh();
    let stored = store_credential(&mut state, &mut registry, HASH, OWNER);
    assert_eq!(
        stored,
        CredentialStoredEvent {
            handle: 0,
            credential_hash: HASH,
            owner: OWNER,
        }
    );
    assert_eq!(registry.len(), 1);
    assert_eq!(
        registry.get(0),
        Some(Credential {
            hash: HASH,
            is_valid: true,
            owner: OWNER,
            revocation_date: 0,
        })
    );
    assert_eq!(state.credential_count, 1);
    assert_eq!(state.verification_count, 0);

    let revoked = revoke_credential(&mut registry, 0, OWNER, 1_700_000_000);
    assert_eq!(
        revoked,
        Ok(CredentialRevokedEvent {
            handle: 0,
            credential_hash: HASH,
            revocation_date: 1_700_000_000,
        })
    );
    assert_eq!(
        registry.get(0),
        Some(Credential {
            hash: HASH,
            is_valid: false,
            owner: OWNER,
            revocation_date: 1_700_000_000,
        })
    );
    assert_eq!(registry.len(), 1);
}

#[test]
fn a_stranger_cannot_revoke() {
    let (mut state, mut registry) = fresh();
    store_credential(&mut state, &mut registry, HASH, OWNER);
    let before = registry.clone();
    assert_eq!(
        revoke_credential(&mut registry, 0, STRANGER, 77),
        Err(ErrorCode::Unauthorized)
    );
    assert_eq!(registry, before);
    let record = registry.get(0).unwrap();
    assert!(record.is_valid);
    assert_eq!(record.revocation_date, 0);
}

#[test]
fn revoking_again_renews_the_date() {
    let (mut state, mut registry) = fresh();
    store_credential(&mut state, &mut registry, HASH, OWNER);
    revoke_credential(&mut registry, 0, OWNER, 100).unwrap();
    let again = revoke_credential(&mut registry, 0, OWNER, 200).unwrap();
    assert_eq!(again.revocation_date, 200);
    let record = registry.get(0).unwrap();
    assert!(!record.is_valid);
    assert_eq!(record.revocation_date, 200);
}

#[test]
fn equal_hashes_give_independent_records() {
    let (mut state, mut registry) = fresh();
    let first = store_credential(&mut state, &mut registry, HASH, OWNER);
    let second = store_credential(&mut state, &mut registry, HASH, STRANGER);
    assert_eq!(first.handle, 0);
    assert_eq!(second.handle, 1);
    assert_eq!(state.credential_count, 2);
    revoke_credential(&mut registry, 1, STRANGER, 9).unwrap();
    assert!(registry.get(0).unwrap().is_valid);
    assert!(!registry.get(1).unwrap().is_valid);
    assert_eq!(registry.get(2), None);
}

#[test]
fn every_hash_verifies() {
    let (mut state, mut registry) = fresh();
    assert!(verify_credential(&registry, &HASH));
    store_credential(&mut state, &mut registry, HASH, OWNER);
    revoke_credential(&mut registry, 0, OWNER, 9).unwrap();
    assert!(verify_credential(&registry, &HASH));
}

#[test]
fn keys_are_compared_byte_by_byte() {
    let mut other = OWNER;
    assert!(same_key(&OWNER, &other));
    other[31] ^= 1;
    assert!(!same_key(&OWNER, &other));
    other = OWNER;
    other[0] ^= 1;
    assert!(!same_key(&OWNER, &other));
}

#[test]
fn timestamp_takes_the_reading_as_unsigned() {
    assert_eq!(timestamp(0), 0);
    assert_eq!(timestamp(1_700_000_000), 1_700_000_000);
    assert_eq!(timestamp(-1), u64::MAX);
    assert_eq!(timestamp(i64::MIN), 1u64 << 63);
}
