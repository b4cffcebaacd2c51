//! The dispatch state machine: an inbound envelope is checked, matched on its
//! type, handled, and answered.
//!
//! Minting is not done here. A token transfer hands the amount back to the
//! caller, who mints and then asks for the reply with
//! [`confirm_token_transfer`]; if minting fails, no reply is ever built.

use crate::codec::check_frame;
use crate::codec::deserialize_asset_creation;
use crate::codec::deserialize_credential_verification;
use crate::codec::deserialize_role_sync;
use crate::codec::deserialize_token_transfer;
use crate::codec::deserialize_verification;
use crate::codec::serialize;
use crate::codec::spec_decode_asset_creation;
use crate::codec::spec_decode_credential_verification;
use crate::codec::spec_decode_role_sync;
use crate::codec::spec_decode_token_transfer;
use crate::codec::spec_decode_verification;
use crate::codec::spec_encode_did_resolution_response;
use crate::codec::spec_encode_flag_response;
use crate::codec::spec_encode_payload;
use crate::codec::spec_u32_at;
use crate::codec::spec_well_framed;
use crate::registry::spec_timestamp;
use crate::registry::timestamp;
use crate::registry::verify_credential;
use crate::registry::CredentialRegistry;
use crate::types::AssetCreationEvent;
use crate::types::CredentialVerificationEvent;
use crate::types::CredentialVerificationResponse;
use crate::types::DIDResolutionEvent;
use crate::types::DIDResolutionResponse;
use crate::types::Envelope;
use crate::types::ErrorCode;
use crate::types::MessagePayload;
use crate::types::MessageType;
use crate::types::ProgramState;
use crate::types::RoleSyncEvent;
use crate::types::RoleSyncResponse;
use crate::types::TokenTransferResponse;
use crate::types::VerificationEvent;
use crate::types::VerificationResponse;
use crate::wire::borsh_write_u64;
use crate::wire::sha256;
use crate::wire::spec_sha256;
use crate::wire::utf8_to_string;
use vstd::bytes::*;
use vstd::prelude::*;
use vstd::slice::*;
use vstd::utf8::*;

verus! {

broadcast use vstd::slice::group_slice_axioms;

/// The one remote chain whose messages are accepted.
pub const REMOTE_CHAIN_ID: u16 = 2;

/// What handling a request has produced.
#[derive(Clone, Debug, PartialEq, Eq)]
pub enum Outcome {
    /// An identity was verified: the event, and the encoded reply.
    Verification { event: VerificationEvent, reply: Vec<u8> },
    /// An asset's creation was noted. There is no reply.
    AssetCreation { event: AssetCreationEvent },
    /// Tokens are to be minted. The reply is built once that is done.
    TokenTransfer { transfer_id: u64, token_address: [u8; 32], amount: u64 },
    /// A credential was verified: the event, and the encoded reply.
    CredentialVerification { event: CredentialVerificationEvent, reply: Vec<u8> },
    /// A role change was noted: the event, and the encoded reply.
    RoleSynchronization { event: RoleSyncEvent, reply: Vec<u8> },
    /// A DID was resolved: the event, and the encoded reply.
    DIDResolution { event: DIDResolutionEvent, reply: Vec<u8> },
}

/// The reply envelope for a request: stamped with the time, and identified by
/// the digest of the request's correlator in its eight little-endian bytes.
pub open spec fn spec_reply(
    msg_type: MessageType,
    data: Seq<u8>,
    correlator: u64,
    now: u64,
) -> Envelope {
    Envelope {
        msg_type,
        data,
        timestamp: now,
        message_id: spec_sha256(spec_u64_to_le_bytes(correlator)),
    }
}

/// The encoded reply that reports one flag as set.
pub open spec fn spec_flag_reply(msg_type: MessageType, correlator: u64, now: u64) -> Seq<u8> {
    spec_encode_payload(
        spec_reply(msg_type, spec_encode_flag_response(correlator, true), correlator, now),
    )
}

/// The encoded reply to a DID resolution: resolved, with an empty document.
pub open spec fn spec_resolution_reply(correlator: u64, now: u64) -> Seq<u8> {
    spec_encode_payload(
        spec_reply(
            MessageType::DIDResolutionResponse,
            spec_encode_did_resolution_response(correlator, true, Seq::<u8>::empty()),
            correlator,
            now,
        ),
    )
}

/// The data that a well-framed envelope carries.
pub open spec fn spec_frame_data(bytes: Seq<u8>) -> Seq<u8> {
    bytes.subrange(5, 5 + spec_u32_at(bytes, 1))
}

/// The error a request's data is refused with, if it is refused.
pub open spec fn spec_request_error(msg_type: MessageType, data: Seq<u8>) -> Option<ErrorCode> {
    match msg_type {
        MessageType::Verification | MessageType::DIDResolution => match spec_decode_verification(
            data,
        ) {
            Err(e) => Some(e),
            Ok((_, did)) => if valid_utf8(did) {
                None
            } else {
                Some(ErrorCode::EncodingError)
            },
        },
        MessageType::AssetCreation => match spec_decode_asset_creation(data) {
            Err(e) => Some(e),
            Ok((_, name, symbol)) => if valid_utf8(name) && valid_utf8(symbol) {
                None
            } else {
                Some(ErrorCode::EncodingError)
            },
        },
        MessageType::TokenTransfer => match spec_decode_token_transfer(data) {
            Err(e) => Some(e),
            Ok(_) => None,
        },
        MessageType::CredentialVerification => match spec_decode_credential_verification(data) {
            Err(e) => Some(e),
            Ok(_) => None,
        },
        MessageType::RoleSynchronization => match spec_decode_role_sync(data) {
            Err(e) => Some(e),
            Ok(_) => None,
        },
        MessageType::VerificationResponse
        | MessageType::TokenTransferResponse
        | MessageType::CredentialVerificationResponse
        | MessageType::RoleSyncResponse
        | MessageType::DIDResolutionResponse => Some(ErrorCode::InvalidMessageType),
    }
}

/// The error an inbound message is refused with, if it is refused: first its
/// frame is checked, then its chain of origin, then its type and its data.
pub open spec fn spec_receive_error(bytes: Seq<u8>, origin_chain_id: u16) -> Option<ErrorCode> {
    if !spec_well_framed(bytes) {
        Some(ErrorCode::MalformedPayload)
    } else if origin_chain_id != REMOTE_CHAIN_ID {
        Some(ErrorCode::InvalidChain)
    } else {
        match MessageType::spec_from_tag(bytes[0]) {
            None => Some(ErrorCode::InvalidMessageType),
            Some(msg_type) => spec_request_error(msg_type, spec_frame_data(bytes)),
        }
    }
}

/// The state after a request of the given type was handled.
pub open spec fn spec_next_state(state: ProgramState, msg_type: MessageType) -> ProgramState {
    match msg_type {
        MessageType::Verification | MessageType::DIDResolution => ProgramState {
            authority: state.authority,
            verification_count: (state.verification_count + 1) as u64,
            credential_count: state.credential_count,
        },
        MessageType::CredentialVerification => ProgramState {
            authority: state.authority,
            verification_count: state.verification_count,
            credential_count: (state.credential_count + 1) as u64,
        },
        MessageType::AssetCreation
        | MessageType::TokenTransfer
        | MessageType::RoleSynchronization
        | MessageType::VerificationResponse
        | MessageType::TokenTransferResponse
        | MessageType::CredentialVerificationResponse
        | MessageType::RoleSyncResponse
        | MessageType::DIDResolutionResponse => state,
    }
}

/// Whether the counter that handling this message would advance, if any, can
/// still grow by one.
pub open spec fn spec_counter_has_room(
    state: ProgramState,
    bytes: Seq<u8>,
    origin_chain_id: u16,
) -> bool {
    spec_receive_error(bytes, origin_chain_id) is None ==> match MessageType::spec_from_tag(
        bytes[0],
    ) {
        Some(MessageType::Verification) | Some(MessageType::DIDResolution) => {
            state.verification_count < u64::MAX
        },
        Some(MessageType::CredentialVerification) => state.credential_count < u64::MAX,
        _ => true,
    }
}

impl Outcome {
    /// Whether this outcome is the one that a request of the given type and
    /// data, handled at `now`, must produce.
    pub open spec fn answers(self, msg_type: MessageType, data: Seq<u8>, now: u64) -> bool {
        match self {
            Outcome::Verification { event, reply } => {
                &&& msg_type == MessageType::Verification
                &&& spec_decode_verification(data) matches Ok(request)
                &&& event.request_id == request.0
                &&& event.did@ == decode_utf8(request.1)
                &&& event.verified
                &&& reply@ == spec_flag_reply(MessageType::VerificationResponse, request.0, now)
            },
            Outcome::AssetCreation { event } => {
                &&& msg_type == MessageType::AssetCreation
                &&& spec_decode_asset_creation(data) matches Ok(request)
                &&& event.issuer@ == request.0
                &&& event.name@ == decode_utf8(request.1)
                &&& event.symbol@ == decode_utf8(request.2)
            },
            Outcome::TokenTransfer { transfer_id, token_address, amount } => {
                &&& msg_type == MessageType::TokenTransfer
                &&& spec_decode_token_transfer(data) == Ok::<(u64, Seq<u8>, u64), ErrorCode>(
                    (transfer_id, token_address@, amount),
                )
            },
            Outcome::CredentialVerification { event, reply } => {
                &&& msg_type == MessageType::CredentialVerification
                &&& spec_decode_credential_verification(data) matches Ok(request)
                &&& event.request_id == request.0
                &&& event.credential_hash@ == request.1
                &&& event.verified
                &&& reply@ == spec_flag_reply(
                    MessageType::CredentialVerificationResponse,
                    request.0,
                    now,
                )
            },
            Outcome::RoleSynchronization { event, reply } => {
                &&& msg_type == MessageType::RoleSynchronization
                &&& spec_decode_role_sync(data) matches Ok(request)
                &&& event.request_id == request.0
                &&& event.role@ == request.1
                &&& event.account@ == request.2
                &&& event.is_grant == request.3
                &&& reply@ == spec_flag_reply(MessageType::RoleSyncResponse, request.0, now)
            },
            Outcome::DIDResolution { event, reply } => {
                &&& msg_type == MessageType::DIDResolution
                &&& spec_decode_verification(data) matches Ok(request)
                &&& event.request_id == request.0
                &&& event.did@ == decode_utf8(request.1)
                &&& event.resolved
                &&& reply@ == spec_resolution_reply(request.0, now)
            },
        }
    }
}

/// Turns the bytes of a text field into text.
pub fn text_of(bytes: Vec<u8>) -> (r: Result<String, ErrorCode>)
    ensures
        valid_utf8(bytes@) <==> r is Ok,
        !valid_utf8(bytes@) <==> r == Err::<String, ErrorCode>(ErrorCode::EncodingError),
        r matches Ok(text) ==> text@ == decode_utf8(bytes@),
{
    match utf8_to_string(bytes) {
        Some(text) => Ok(text),
        None => Err(ErrorCode::EncodingError),
    }
}

/// Builds the reply envelope for a request: the given type and data, the
/// clock reading as timestamp, and the digest of the correlator as
/// identifier.
pub fn build_reply(
    msg_type: MessageType,
    data: Vec<u8>,
    correlator: u64,
    unix_timestamp: i64,
) -> (reply: MessagePayload)
    ensures
        reply@ == spec_reply(msg_type, data@, correlator, spec_timestamp(unix_timestamp)),
{
    let canonical = borsh_write_u64(correlator);
    MessagePayload {
        msg_type,
        data,
        timestamp: timestamp(unix_timestamp),
        message_id: sha256(canonical.as_slice()),
    }
}

/// Builds and encodes a reply whose data is short enough for its length
/// prefix.
fn encode_reply(msg_type: MessageType, data: Vec<u8>, correlator: u64, unix_timestamp: i64) -> (bytes:
    Vec<u8>)
    requires
        data@.len() <= u32::MAX,
    ensures
        bytes@ == spec_encode_payload(
            spec_reply(msg_type, data@, correlator, spec_timestamp(unix_timestamp)),
        ),
{
    let reply = build_reply(msg_type, data, correlator, unix_timestamp);
    // The data fits its length prefix, so the encoding always succeeds.
    match serialize(&reply) {
        Ok(bytes) => bytes,
        Err(_) => Vec::new(),
    }
}

/// The reply to a token transfer whose tokens have been minted.
pub fn confirm_token_transfer(transfer_id: u64, unix_timestamp: i64) -> (reply: Vec<u8>)
    ensures
        reply@ == spec_flag_reply(
            MessageType::TokenTransferResponse,
            transfer_id,
            spec_timestamp(unix_timestamp),
        ),
{
    proof {
        lemma_auto_spec_u64_to_from_le_bytes();
    }
    let response = TokenTransferResponse { transfer_id, success: true };
    encode_reply(
        MessageType::TokenTransferResponse,
        response.serialize(),
        transfer_id,
        unix_timestamp,
    )
}

/// Whether `r` is what handling the message must give: the error it is
/// refused with and the state as it was, or its outcome and the state that
/// follows.
pub open spec fn spec_received(
    before: ProgramState,
    bytes: Seq<u8>,
    origin_chain_id: u16,
    now: u64,
    r: Result<Outcome, ErrorCode>,
    after: ProgramState,
) -> bool {
    match r {
        Err(e) => {
            &&& spec_receive_error(bytes, origin_chain_id) == Some(e)
            &&& after == before
        },
        Ok(outcome) => {
            &&& spec_receive_error(bytes, origin_chain_id) is None
            &&& MessageType::spec_from_tag(bytes[0]) matches Some(msg_type)
            &&& outcome.answers(msg_type, spec_frame_data(bytes), now)
            &&& after == spec_next_state(before, msg_type)
        },
    }
}

/// Handles one inbound message from the chain `origin_chain_id`, unless the
/// counter that it would advance stands at its maximum: then nothing is done
/// and nothing is returned.
///
/// An ill-framed buffer is malformed; a message from another chain than the
/// configured one is refused; a reply type or an unknown tag is an invalid
/// message type; then the request's own data is decoded. Any refusal leaves
/// the state as it was. A handled request yields its outcome, and the
/// verification and credential requests count themselves in the state.
pub fn try_receive_message(
    state: &mut ProgramState,
    registry: &CredentialRegistry,
    vaa: &[u8],
    origin_chain_id: u16,
    unix_timestamp: i64,
) -> (r: Option<Result<Outcome, ErrorCode>>)
    ensures
        r is Some <==> spec_counter_has_room(*old(state), vaa@, origin_chain_id),
        r is None ==> *final(state) == *old(state),
        r matches Some(received) ==> spec_received(
            *old(state),
            vaa@,
            origin_chain_id,
            spec_timestamp(unix_timestamp),
            received,
            *final(state),
        ),
{
    proof {
        lemma_auto_spec_u64_to_from_le_bytes();
        lemma_auto_spec_u32_to_from_le_bytes();
    }
    let data_len = match check_frame(vaa) {
        Some(data_len) => data_len,
        None => { return Some(Err(ErrorCode::MalformedPayload)); },
    };
    if origin_chain_id != REMOTE_CHAIN_ID {
        return Some(Err(ErrorCode::InvalidChain));
    }
    let msg_type = match MessageType::from_tag(vaa[0]) {
        Some(msg_type) => msg_type,
        None => { return Some(Err(ErrorCode::InvalidMessageType)); },
    };
    let data = slice_subrange(vaa, 5, 5 + data_len);
    match msg_type {
        MessageType::Verification => {
            let (request_id, did) = match deserialize_verification(data) {
                Ok(request) => request,
                Err(e) => { return Some(Err(e)); },
            };
            let did = match text_of(did) {
                Ok(did) => did,
                Err(e) => { return Some(Err(e)); },
            };
            if state.verification_count == u64::MAX {
                return None;
            }
            let event = VerificationEvent { request_id, did, verified: true };
            state.verification_count = state.verification_count + 1;
            let response = VerificationResponse { request_id, verified: true };
            let reply = encode_reply(
                MessageType::VerificationResponse,
                response.serialize(),
                request_id,
                unix_timestamp,
            );
            Some(Ok(Outcome::Verification { event, reply }))
        },
        MessageType::AssetCreation => {
            let (issuer, name, symbol) = match deserialize_asset_creation(data) {
                Ok(request) => request,
                Err(e) => { return Some(Err(e)); },
            };
            let name = match text_of(name) {
                Ok(name) => name,
                Err(e) => { return Some(Err(e)); },
            };
            let symbol = match text_of(symbol) {
                Ok(symbol) => symbol,
                Err(e) => { return Some(Err(e)); },
            };
            Some(Ok(Outcome::AssetCreation { event: AssetCreationEvent { issuer, name, symbol } }))
        },
        MessageType::TokenTransfer => {
            match deserialize_token_transfer(data) {
                Ok((transfer_id, token_address, amount)) => Some(
                    Ok(Outcome::TokenTransfer { transfer_id, token_address, amount }),
                ),
                Err(e) => Some(Err(e)),
            }
        },
        MessageType::CredentialVerification => {
            let (request_id, credential_hash) = match deserialize_credential_verification(data) {
                Ok(request) => request,
                Err(e) => { return Some(Err(e)); },
            };
            let verified = verify_credential(registry, &credential_hash);
            if state.credential_count == u64::MAX {
                return None;
            }
            let event = CredentialVerificationEvent { request_id, credential_hash, verified };
            state.credential_count = state.credential_count + 1;
            let response = CredentialVerificationResponse { request_id, verified };
            let reply = encode_reply(
                MessageType::CredentialVerificationResponse,
                response.serialize(),
                request_id,
                unix_timestamp,
            );
            Some(Ok(Outcome::CredentialVerification { event, reply }))
        },
        MessageType::RoleSynchronization => {
            let (request_id, role, account, is_grant) = match deserialize_role_sync(data) {
                Ok(request) => request,
                Err(e) => { return Some(Err(e)); },
            };
            let event = RoleSyncEvent { request_id, role, account, is_grant };
            let response = RoleSyncResponse { request_id, success: true };
            let reply = encode_reply(
                MessageType::RoleSyncResponse,
                response.serialize(),
                request_id,
                unix_timestamp,
            );
            Some(Ok(Outcome::RoleSynchronization { event, reply }))
        },
        MessageType::DIDResolution => {
            let (request_id, did) = match deserialize_verification(data) {
                Ok(request) => request,
                Err(e) => { return Some(Err(e)); },
            };
            let did = match text_of(did) {
                Ok(did) => did,
                Err(e) => { return Some(Err(e)); },
            };
            if state.verification_count == u64::MAX {
                return None;
            }
            let event = DIDResolutionEvent { request_id, did, resolved: true };
            state.verification_count = state.verification_count + 1;
            let response = DIDResolutionResponse {
                request_id,
                resolved: true,
                did_document: Vec::new(),
            };
            let response_bytes = match response.serialize() {
                Ok(bytes) => bytes,
                Err(e) => { return Some(Err(e)); },
            };
            let reply = encode_reply(
                MessageType::DIDResolutionResponse,
                response_bytes,
                request_id,
                unix_timestamp,
            );
            Some(Ok(Outcome::DIDResolution { event, reply }))
        },
        MessageType::VerificationResponse
        | MessageType::TokenTransferResponse
        | MessageType::CredentialVerificationResponse
        | MessageType::RoleSyncResponse
        | MessageType::DIDResolutionResponse => Some(Err(ErrorCode::InvalidMessageType)),
    }
}

/// Handles one inbound message from the chain `origin_chain_id`.
///
/// The checks, the outcome and the state that follows are those of
/// [`try_receive_message`]. The counter that the message advances must not
/// stand at its maximum, which holds whenever both counters are below it.
pub fn receive_message(
    state: &mut ProgramState,
    registry: &CredentialRegistry,
    vaa: &[u8],
    origin_chain_id: u16,
    unix_timestamp: i64,
) -> (r: Result<Outcome, ErrorCode>)
    requires
        spec_counter_has_room(*old(state), vaa@, origin_chain_id),
    ensures
        spec_received(
            *old(state),
            vaa@,
            origin_chain_id,
            spec_timestamp(unix_timestamp),
            r,
            *final(state),
        ),
{
    // The counter has room, so the message is always handled.
    match try_receive_message(state, registry, vaa, origin_chain_id, unix_timestamp) {
        Some(received) => received,
        None => Err(ErrorCode::MalformedPayload),
    }
}

} // verus!
