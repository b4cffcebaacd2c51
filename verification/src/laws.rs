//! Laws of the codec and of the dispatch, stated over the same functions that
//! the contracts use.

use crate::codec::spec_decode_asset_creation;
use crate::codec::spec_decode_credential_verification;
use crate::codec::spec_decode_did_resolution_response;
use crate::codec::spec_decode_flag_response;
use crate::codec::spec_decode_payload;
use crate::codec::spec_decode_role_sync;
use crate::codec::spec_decode_token_transfer;
use crate::codec::spec_decode_verification;
use crate::codec::spec_encode_asset_creation;
use crate::codec::spec_encode_credential_verification;
use crate::codec::spec_encode_did_resolution_response;
use crate::codec::spec_encode_flag_response;
use crate::codec::spec_encode_payload;
use crate::codec::spec_encode_role_sync;
use crate::codec::spec_encode_token_transfer;
use crate::codec::spec_encode_verification;
use crate::codec::spec_u32_at;
use crate::codec::spec_well_framed;
use crate::codec::MAX_DID_LEN;
use crate::codec::MAX_NAME_LEN;
use crate::codec::MAX_SYMBOL_LEN;
use crate::dispatch::spec_next_state;
use crate::dispatch::spec_receive_error;
use crate::dispatch::spec_reply;
use crate::dispatch::REMOTE_CHAIN_ID;
use crate::registry::spec_fresh_credential;
use crate::registry::spec_revoked;
use crate::types::Credential;
use crate::types::Envelope;
use crate::types::ErrorCode;
use crate::types::MessageType;
use crate::types::ProgramState;
use vstd::bytes::*;
use vstd::prelude::*;

verus! {

/// A verification request whose DID respects its bound decodes, from its
/// encoding, to itself.
pub proof fn law_verification_round_trip(request_id: u64, did: Seq<u8>)
    requires
        did.len() <= MAX_DID_LEN,
    ensures
        spec_decode_verification(spec_encode_verification(request_id, did)) == Ok::<
            (u64, Seq<u8>),
            ErrorCode,
        >((request_id, did)),
{
    lemma_auto_spec_u64_to_from_le_bytes();
    lemma_auto_spec_u32_to_from_le_bytes();
    let bytes = spec_encode_verification(request_id, did);
    assert(bytes.subrange(0, 8) =~= spec_u64_to_le_bytes(request_id));
    assert(bytes.subrange(8, 12) =~= spec_u32_to_le_bytes(did.len() as u32));
    assert(bytes.subrange(12, 12 + did.len() as int) =~= did);
}

/// An asset-creation notice whose name and symbol respect their bounds
/// decodes, from its encoding, to itself.
pub proof fn law_asset_creation_round_trip(issuer: Seq<u8>, name: Seq<u8>, symbol: Seq<u8>)
    requires
        issuer.len() == 32,
        name.len() <= MAX_NAME_LEN,
        symbol.len() <= MAX_SYMBOL_LEN,
    ensures
        spec_decode_asset_creation(spec_encode_asset_creation(issuer, name, symbol)) == Ok::<
            (Seq<u8>, Seq<u8>, Seq<u8>),
            ErrorCode,
        >((issuer, name, symbol)),
{
    lemma_auto_spec_u32_to_from_le_bytes();
    let bytes = spec_encode_asset_creation(issuer, name, symbol);
    let n = name.len() as int;
    let s = symbol.len() as int;
    assert(bytes.len() == 40 + n + s);
    assert(bytes.subrange(0, 32) =~= issuer);
    assert(bytes.subrange(32, 36) =~= spec_u32_to_le_bytes(name.len() as u32));
    assert(bytes.subrange(36, 36 + n) =~= name);
    assert(bytes.subrange(36 + n, 36 + n + 4) =~= spec_u32_to_le_bytes(symbol.len() as u32));
    assert(bytes.subrange(40 + n, 40 + n + s) =~= symbol);
}

/// A token transfer decodes, from its encoding, to itself.
pub proof fn law_token_transfer_round_trip(transfer_id: u64, token_address: Seq<u8>, amount: u64)
    requires
        token_address.len() == 32,
    ensures
        spec_decode_token_transfer(
            spec_encode_token_transfer(transfer_id, token_address, amount),
        ) == Ok::<(u64, Seq<u8>, u64), ErrorCode>((transfer_id, token_address, amount)),
{
    lemma_auto_spec_u64_to_from_le_bytes();
    let bytes = spec_encode_token_transfer(transfer_id, token_address, amount);
    assert(bytes.subrange(0, 8) =~= spec_u64_to_le_bytes(transfer_id));
    assert(bytes.subrange(8, 40) =~= token_address);
    assert(bytes.subrange(40, 48) =~= spec_u64_to_le_bytes(amount));
}

/// A credential verification decodes, from its encoding, to itself.
pub proof fn law_credential_verification_round_trip(request_id: u64, credential_hash: Seq<u8>)
    requires
        credential_hash.len() == 32,
    ensures
        spec_decode_credential_verification(
            spec_encode_credential_verification(request_id, credential_hash),
        ) == Ok::<(u64, Seq<u8>), ErrorCode>((request_id, credential_hash)),
{
    lemma_auto_spec_u64_to_from_le_bytes();
    let bytes = spec_encode_credential_verification(request_id, credential_hash);
    assert(bytes.subrange(0, 8) =~= spec_u64_to_le_bytes(request_id));
    assert(bytes.subrange(8, 40) =~= credential_hash);
}

/// A role synchronization decodes, from its encoding, to itself.
pub proof fn law_role_sync_round_trip(
    request_id: u64,
    role: Seq<u8>,
    account: Seq<u8>,
    is_grant: bool,
)
    requires
        role.len() == 32,
        account.len() == 32,
    ensures
        spec_decode_role_sync(spec_encode_role_sync(request_id, role, account, is_grant)) == Ok::<
            (u64, Seq<u8>, Seq<u8>, bool),
            ErrorCode,
        >((request_id, role, account, is_grant)),
{
    lemma_auto_spec_u64_to_from_le_bytes();
    let bytes = spec_encode_role_sync(request_id, role, account, is_grant);
    assert(bytes.subrange(0, 8) =~= spec_u64_to_le_bytes(request_id));
    assert(bytes.subrange(8, 40) =~= role);
    assert(bytes.subrange(40, 72) =~= account);
}

/// A reply that reports one flag decodes, from its encoding, to itself.
pub proof fn law_flag_response_round_trip(id: u64, flag: bool)
    ensures
        spec_decode_flag_response(spec_encode_flag_response(id, flag)) == Ok::<
            (u64, bool),
            ErrorCode,
        >((id, flag)),
{
    lemma_auto_spec_u64_to_from_le_bytes();
    let bytes = spec_encode_flag_response(id, flag);
    assert(bytes.subrange(0, 8) =~= spec_u64_to_le_bytes(id));
}

/// A DID resolution reply whose document fits its length prefix decodes, from
/// its encoding, to itself.
pub proof fn law_did_resolution_response_round_trip(
    request_id: u64,
    resolved: bool,
    did_document: Seq<u8>,
)
    requires
        did_document.len() <= u32::MAX,
    ensures
        spec_decode_did_resolution_response(
            spec_encode_did_resolution_response(request_id, resolved, did_document),
        ) == Ok::<(u64, bool, Seq<u8>), ErrorCode>((request_id, resolved, did_document)),
{
    lemma_auto_spec_u64_to_from_le_bytes();
    lemma_auto_spec_u32_to_from_le_bytes();
    let bytes = spec_encode_did_resolution_response(request_id, resolved, did_document);
    assert(bytes.subrange(0, 8) =~= spec_u64_to_le_bytes(request_id));
    assert(bytes.subrange(9, 13) =~= spec_u32_to_le_bytes(did_document.len() as u32));
    assert(bytes.subrange(13, bytes.len() as int) =~= did_document);
}

/// An envelope whose data fits its length prefix decodes, from its encoding,
/// to itself.
pub proof fn law_payload_round_trip(envelope: Envelope)
    requires
        envelope.data.len() <= u32::MAX,
        envelope.message_id.len() == 32,
    ensures
        spec_decode_payload(spec_encode_payload(envelope)) == Ok::<Envelope, ErrorCode>(envelope),
{
    lemma_auto_spec_u64_to_from_le_bytes();
    lemma_auto_spec_u32_to_from_le_bytes();
    let bytes = spec_encode_payload(envelope);
    let n = envelope.data.len() as int;
    assert(bytes.len() == 45 + n);
    assert(bytes.subrange(1, 5) =~= spec_u32_to_le_bytes(envelope.data.len() as u32));
    assert(bytes.subrange(5, 5 + n) =~= envelope.data);
    assert(bytes.subrange(5 + n, 5 + n + 8) =~= spec_u64_to_le_bytes(envelope.timestamp));
    assert(bytes.subrange(13 + n, 45 + n) =~= envelope.message_id);
    assert(bytes[0] == envelope.msg_type.spec_tag());
}

/// A verification request that declares a DID of more than 128 bytes is
/// refused as too long, however many bytes follow.
pub proof fn law_did_bound(data: Seq<u8>)
    requires
        data.len() >= 12,
        spec_u32_at(data, 8) > MAX_DID_LEN,
    ensures
        spec_decode_verification(data) == Err::<(u64, Seq<u8>), ErrorCode>(
            ErrorCode::FieldTooLong,
        ),
{
}

/// An asset-creation notice that declares a name of more than 32 bytes is
/// refused as too long, however many bytes follow.
pub proof fn law_name_bound(data: Seq<u8>)
    requires
        data.len() >= 36,
        spec_u32_at(data, 32) > MAX_NAME_LEN,
    ensures
        spec_decode_asset_creation(data) == Err::<(Seq<u8>, Seq<u8>, Seq<u8>), ErrorCode>(
            ErrorCode::FieldTooLong,
        ),
{
}

/// An asset-creation notice with a good name that declares a symbol of more
/// than 10 bytes is refused as too long, however many bytes follow.
pub proof fn law_symbol_bound(data: Seq<u8>)
    requires
        data.len() >= 36,
        spec_u32_at(data, 32) <= MAX_NAME_LEN,
        data.len() >= 40 + spec_u32_at(data, 32),
        spec_u32_at(data, 36 + spec_u32_at(data, 32)) > MAX_SYMBOL_LEN,
    ensures
        spec_decode_asset_creation(data) == Err::<(Seq<u8>, Seq<u8>, Seq<u8>), ErrorCode>(
            ErrorCode::FieldTooLong,
        ),
{
}

/// A well-framed message from any chain but the configured one is refused as
/// coming from an invalid chain, whatever it carries.
pub proof fn law_chain_gate(bytes: Seq<u8>, origin_chain_id: u16)
    requires
        spec_well_framed(bytes),
        origin_chain_id != REMOTE_CHAIN_ID,
    ensures
        spec_receive_error(bytes, origin_chain_id) == Some(ErrorCode::InvalidChain),
{
}

/// A well-framed message from the configured chain whose tag names a reply,
/// or no type at all, is refused as of an invalid type, whatever it carries.
pub proof fn law_only_requests_are_dispatched(bytes: Seq<u8>)
    requires
        spec_well_framed(bytes),
        match MessageType::spec_from_tag(bytes[0]) {
            Some(msg_type) => !msg_type.spec_is_request(),
            None => true,
        },
    ensures
        spec_receive_error(bytes, REMOTE_CHAIN_ID) == Some(ErrorCode::InvalidMessageType),
{
}

/// Handling a verification or a DID resolution adds exactly one to the
/// verification count; handling anything else leaves that count alone.
pub proof fn law_verification_count_step(state: ProgramState, msg_type: MessageType)
    requires
        state.verification_count < u64::MAX,
    ensures
        (msg_type == MessageType::Verification || msg_type == MessageType::DIDResolution)
            ==> spec_next_state(state, msg_type).verification_count == state.verification_count
            + 1,
        !(msg_type == MessageType::Verification || msg_type == MessageType::DIDResolution)
            ==> spec_next_state(state, msg_type).verification_count == state.verification_count,
{
}

/// Handling a credential verification adds exactly one to the credential
/// count; handling anything else leaves that count alone.
pub proof fn law_credential_count_step(state: ProgramState, msg_type: MessageType)
    requires
        state.credential_count < u64::MAX,
    ensures
        msg_type == MessageType::CredentialVerification ==> spec_next_state(
            state,
            msg_type,
        ).credential_count == state.credential_count + 1,
        msg_type != MessageType::CredentialVerification ==> spec_next_state(
            state,
            msg_type,
        ).credential_count == state.credential_count,
{
}

/// Storing a credential leaves every record that was there as it was.
pub proof fn law_store_keeps_records(
    records: Seq<Credential>,
    credential_hash: [u8; 32],
    owner: [u8; 32],
    handle: int,
)
    requires
        0 <= handle < records.len(),
    ensures
        records.push(spec_fresh_credential(credential_hash, owner))[handle] == records[handle],
        records.push(spec_fresh_credential(credential_hash, owner)).len() == records.len() + 1,
{
}

/// Revocation is final: revoking any record, at any time, leaves a record that
/// was not valid not valid, changes no other record than the revoked one, and
/// changes neither hash nor owner of that one.
pub proof fn law_revocation_is_final(
    records: Seq<Credential>,
    revoked: int,
    now: u64,
    handle: int,
)
    requires
        0 <= revoked < records.len(),
        0 <= handle < records.len(),
    ensures
        ({
            let after = records.update(revoked, spec_revoked(records[revoked], now));
            &&& after.len() == records.len()
            &&& !records[handle].is_valid ==> !after[handle].is_valid
            &&& handle != revoked ==> after[handle] == records[handle]
            &&& !after[revoked].is_valid
            &&& after[revoked].hash == records[revoked].hash
            &&& after[revoked].owner == records[revoked].owner
            &&& after[revoked].revocation_date == now
        }),
{
}

/// The identifier of a reply depends on the request's correlator alone: two
/// replies to the same correlator carry the same identifier, whenever they are
/// built and whatever else they hold.
pub proof fn law_reply_determinism(
    correlator: u64,
    first_type: MessageType,
    first_data: Seq<u8>,
    first_now: u64,
    second_type: MessageType,
    second_data: Seq<u8>,
    second_now: u64,
)
    ensures
        spec_reply(first_type, first_data, correlator, first_now).message_id == spec_reply(
            second_type,
            second_data,
            correlator,
            second_now,
        ).message_id,
{
}

} // verus!
