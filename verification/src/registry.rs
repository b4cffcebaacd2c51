//! The program state and the credential registry: creation of the singleton
//! state, and storing and revoking credential records.

use crate::types::Credential;
use crate::types::CredentialRevokedEvent;
use crate::types::CredentialStoredEvent;
use crate::types::ErrorCode;
use crate::types::ProgramState;
use vstd::prelude::*;

verus! {

/// The records of all stored credentials. A record's handle is its position;
/// records are never removed, so a handle stays good.
#[derive(Clone, Debug, PartialEq, Eq)]
pub struct CredentialRegistry {
    pub records: Vec<Credential>,
}

impl View for CredentialRegistry {
    type V = Seq<Credential>;

    open spec fn view(&self) -> Seq<Credential> {
        self.records@
    }
}

/// The state of a fresh deployment under `authority`.
pub open spec fn spec_initial_state(authority: [u8; 32]) -> ProgramState {
    ProgramState { authority, verification_count: 0, credential_count: 0 }
}

/// The record that storing `credential_hash` for `owner` creates.
pub open spec fn spec_fresh_credential(credential_hash: [u8; 32], owner: [u8; 32]) -> Credential {
    Credential { hash: credential_hash, is_valid: true, owner, revocation_date: 0 }
}

/// A record after its revocation at `now`.
pub open spec fn spec_revoked(credential: Credential, now: u64) -> Credential {
    Credential {
        hash: credential.hash,
        is_valid: false,
        owner: credential.owner,
        revocation_date: now,
    }
}

/// The number of seconds a clock reading stands for in a record or an
/// envelope: the reading taken as an unsigned number.
pub open spec fn spec_timestamp(unix_timestamp: i64) -> u64 {
    unix_timestamp as u64
}

/// Turns a clock reading into a timestamp.
pub fn timestamp(unix_timestamp: i64) -> (now: u64)
    ensures
        now == spec_timestamp(unix_timestamp),
{
    #[verifier::truncate]
    (unix_timestamp as u64)
}

/// Whether two keys are the same 32 bytes.
pub fn same_key(a: &[u8; 32], b: &[u8; 32]) -> (same: bool)
    ensures
        same == (a@ == b@),
{
    let mut i: usize = 0;
    while i < 32
        invariant
            i <= 32,
            forall|j: int| 0 <= j < i ==> a@[j] == b@[j],
        decreases 32 - i,
    {
        if a[i] != b[i] {
            return false;
        }
        i += 1;
    }
    assert(a@ =~= b@);
    true
}

impl CredentialRegistry {
    /// A registry without records.
    pub fn new() -> (registry: CredentialRegistry)
        ensures
            registry@ == Seq::<Credential>::empty(),
    {
        CredentialRegistry { records: Vec::new() }
    }

    /// The number of records.
    pub fn len(&self) -> (len: usize)
        ensures
            len == self@.len(),
    {
        self.records.len()
    }

    /// The record behind `handle`, if there is one.
    pub fn get(&self, handle: usize) -> (record: Option<Credential>)
        ensures
            handle < self@.len() <==> record is Some,
            record matches Some(credential) ==> credential == self@[handle as int],
    {
        if handle < self.records.len() {
            Some(self.records[handle])
        } else {
            None
        }
    }
}

/// Creates the program state in an empty slot, with zeroed counters and the
/// caller as authority. A slot that holds a state already is left as it is.
pub fn initialize(slot: &mut Option<ProgramState>, authority: [u8; 32]) -> (r: Result<
    (),
    ErrorCode,
>)
    ensures
        (*old(slot)) is Some <==> r == Err::<(), ErrorCode>(ErrorCode::AlreadyInitialized),
        (*old(slot)) is None <==> r is Ok,
        r is Err ==> *final(slot) == *old(slot),
        r is Ok ==> *final(slot) == Some(spec_initial_state(authority)),
{
    if slot.is_some() {
        return Err(ErrorCode::AlreadyInitialized);
    }
    *slot = Some(ProgramState { authority, verification_count: 0, credential_count: 0 });
    Ok(())
}

/// Stores a credential for `owner`: appends a valid, unrevoked record, counts
/// it, and reports its handle. Equal hashes give independent records.
pub fn store_credential(
    state: &mut ProgramState,
    registry: &mut CredentialRegistry,
    credential_hash: [u8; 32],
    owner: [u8; 32],
) -> (event: CredentialStoredEvent)
    requires
        old(state).credential_count < u64::MAX,
    ensures
        final(registry)@ == old(registry)@.push(spec_fresh_credential(credential_hash, owner)),
        final(state).credential_count == old(state).credential_count + 1,
        final(state).verification_count == old(state).verification_count,
        final(state).authority == old(state).authority,
        event.handle == old(registry)@.len(),
        event.credential_hash == credential_hash,
        event.owner == owner,
{
    let handle = registry.records.len();
    registry.records.push(
        Credential { hash: credential_hash, is_valid: true, owner, revocation_date: 0 },
    );
    state.credential_count = state.credential_count + 1;
    CredentialStoredEvent { handle, credential_hash, owner }
}

/// Revokes the record behind `handle` at the given clock reading. Only the
/// record's owner may do so; anyone else leaves the registry unchanged. A
/// revoked record can be revoked again, which renews its date.
pub fn revoke_credential(
    registry: &mut CredentialRegistry,
    handle: usize,
    caller: [u8; 32],
    unix_timestamp: i64,
) -> (r: Result<CredentialRevokedEvent, ErrorCode>)
    requires
        handle < old(registry)@.len(),
    ensures
        old(registry)@[handle as int].owner@ != caller@ <==> r == Err::<
            CredentialRevokedEvent,
            ErrorCode,
        >(ErrorCode::Unauthorized),
        old(registry)@[handle as int].owner@ == caller@ <==> r is Ok,
        r is Err ==> final(registry)@ == old(registry)@,
        r matches Ok(event) ==> {
            &&& final(registry)@ == old(registry)@.update(
                handle as int,
                spec_revoked(old(registry)@[handle as int], spec_timestamp(unix_timestamp)),
            )
            &&& event.handle == handle
            &&& event.credential_hash == old(registry)@[handle as int].hash
            &&& event.revocation_date == spec_timestamp(unix_timestamp)
        },
{
    let record = registry.records[handle];
    if !same_key(&record.owner, &caller) {
        return Err(ErrorCode::Unauthorized);
    }
    let now = timestamp(unix_timestamp);
    registry.records[handle] = Credential {
        hash: record.hash,
        is_valid: false,
        owner: record.owner,
        revocation_date: now,
    };
    Ok(CredentialRevokedEvent { handle, credential_hash: record.hash, revocation_date: now })
}

/// Reports whether a credential with this hash verifies. The registry is not
/// consulted: every hash verifies, whatever its record says.
pub fn verify_credential(registry: &CredentialRegistry, credential_hash: &[u8; 32]) -> (verified:
    bool)
    ensures
        verified,
{
    true
}

} // verus!
