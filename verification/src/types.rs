//! The data the bridge core works on: message envelopes, persistent records,
//! reply payloads, events and errors.

use vstd::prelude::*;

verus! {

/// Why an operation was refused.
#[derive(Clone, Copy, Debug, PartialEq, Eq, Structural)]
pub enum ErrorCode {
    /// The buffer is shorter than its layout requires, or otherwise ill-framed.
    MalformedPayload,
    /// A declared length exceeds the bound of its field.
    FieldTooLong,
    /// A text field is not valid UTF-8.
    EncodingError,
    /// The message does not come from the configured remote chain.
    InvalidChain,
    /// The type tag is unknown, or names a reply on the inbound path.
    InvalidMessageType,
    /// The caller does not own the record it tries to change.
    Unauthorized,
    /// The program state exists already.
    AlreadyInitialized,
}

/// The closed set of message types. Requests are handled inbound; responses
/// are only ever sent.
#[derive(Clone, Copy, Debug, PartialEq, Eq, Structural)]
pub enum MessageType {
    Verification,
    VerificationResponse,
    AssetCreation,
    TokenTransfer,
    TokenTransferResponse,
    CredentialVerification,
    CredentialVerificationResponse,
    RoleSynchronization,
    RoleSyncResponse,
    DIDResolution,
    DIDResolutionResponse,
}

impl MessageType {
    /// The one-byte tag that stands for this type on the wire.
    pub open spec fn spec_tag(self) -> u8 {
        match self {
            MessageType::Verification => 0,
            MessageType::VerificationResponse => 1,
            MessageType::AssetCreation => 2,
            MessageType::TokenTransfer => 3,
            MessageType::TokenTransferResponse => 4,
            MessageType::CredentialVerification => 5,
            MessageType::CredentialVerificationResponse => 6,
            MessageType::RoleSynchronization => 7,
            MessageType::RoleSyncResponse => 8,
            MessageType::DIDResolution => 9,
            MessageType::DIDResolutionResponse => 10,
        }
    }

    /// The type a tag stands for, if any.
    pub open spec fn spec_from_tag(tag: u8) -> Option<MessageType> {
        if tag == 0 {
            Some(MessageType::Verification)
        } else if tag == 1 {
            Some(MessageType::VerificationResponse)
        } else if tag == 2 {
            Some(MessageType::AssetCreation)
        } else if tag == 3 {
            Some(MessageType::TokenTransfer)
        } else if tag == 4 {
            Some(MessageType::TokenTransferResponse)
        } else if tag == 5 {
            Some(MessageType::CredentialVerification)
        } else if tag == 6 {
            Some(MessageType::CredentialVerificationResponse)
        } else if tag == 7 {
            Some(MessageType::RoleSynchronization)
        } else if tag == 8 {
            Some(MessageType::RoleSyncResponse)
        } else if tag == 9 {
            Some(MessageType::DIDResolution)
        } else if tag == 10 {
            Some(MessageType::DIDResolutionResponse)
        } else {
            None
        }
    }

    /// Whether this type is a request, which the inbound path handles.
    pub open spec fn spec_is_request(self) -> bool {
        match self {
            MessageType::Verification => true,
            MessageType::AssetCreation => true,
            MessageType::TokenTransfer => true,
            MessageType::CredentialVerification => true,
            MessageType::RoleSynchronization => true,
            MessageType::DIDResolution => true,
            _ => false,
        }
    }

    pub fn tag(self) -> (tag: u8)
        ensures
            tag == self.spec_tag(),
            MessageType::spec_from_tag(tag) == Some(self),
    {
        match self {
            MessageType::Verification => 0,
            MessageType::VerificationResponse => 1,
            MessageType::AssetCreation => 2,
            MessageType::TokenTransfer => 3,
            MessageType::TokenTransferResponse => 4,
            MessageType::CredentialVerification => 5,
            MessageType::CredentialVerificationResponse => 6,
            MessageType::RoleSynchronization => 7,
            MessageType::RoleSyncResponse => 8,
            MessageType::DIDResolution => 9,
            MessageType::DIDResolutionResponse => 10,
        }
    }

    pub fn from_tag(tag: u8) -> (msg_type: Option<MessageType>)
        ensures
            msg_type == MessageType::spec_from_tag(tag),
            msg_type matches Some(t) ==> t.spec_tag() == tag,
            msg_type is Some <==> tag <= 10,
    {
        if tag == 0 {
            Some(MessageType::Verification)
        } else if tag == 1 {
            Some(MessageType::VerificationResponse)
        } else if tag == 2 {
            Some(MessageType::AssetCreation)
        } else if tag == 3 {
            Some(MessageType::TokenTransfer)
        } else if tag == 4 {
            Some(MessageType::TokenTransferResponse)
        } else if tag == 5 {
            Some(MessageType::CredentialVerification)
        } else if tag == 6 {
            Some(MessageType::CredentialVerificationResponse)
        } else if tag == 7 {
            Some(MessageType::RoleSynchronization)
        } else if tag == 8 {
            Some(MessageType::RoleSyncResponse)
        } else if tag == 9 {
            Some(MessageType::DIDResolution)
        } else if tag == 10 {
            Some(MessageType::DIDResolutionResponse)
        } else {
            None
        }
    }

    pub fn is_request(self) -> (request: bool)
        ensures
            request == self.spec_is_request(),
    {
        match self {
            MessageType::Verification => true,
            MessageType::AssetCreation => true,
            MessageType::TokenTransfer => true,
            MessageType::CredentialVerification => true,
            MessageType::RoleSynchronization => true,
            MessageType::DIDResolution => true,
            _ => false,
        }
    }
}

/// The outer message: a type tag, a type-dependent blob, a timestamp and the
/// digest that ties a reply to its request.
#[derive(Clone, Debug, PartialEq, Eq)]
pub struct MessagePayload {
    pub msg_type: MessageType,
    pub data: Vec<u8>,
    pub timestamp: u64,
    pub message_id: [u8; 32],
}

/// What a `MessagePayload` holds, as mathematical values.
pub ghost struct Envelope {
    pub msg_type: MessageType,
    pub data: Seq<u8>,
    pub timestamp: u64,
    pub message_id: Seq<u8>,
}

impl View for MessagePayload {
    type V = Envelope;

    open spec fn view(&self) -> Envelope {
        Envelope {
            msg_type: self.msg_type,
            data: self.data@,
            timestamp: self.timestamp,
            message_id: self.message_id@,
        }
    }
}

/// The singleton state of a deployment. Its counters only grow.
#[derive(Clone, Copy, Debug, PartialEq, Eq)]
pub struct ProgramState {
    pub authority: [u8; 32],
    pub verification_count: u64,
    pub credential_count: u64,
}

/// One credential record. `revocation_date` is zero until the record is
/// revoked; a revoked record never becomes valid again.
#[derive(Clone, Copy, Debug, PartialEq, Eq)]
pub struct Credential {
    pub hash: [u8; 32],
    pub is_valid: bool,
    pub owner: [u8; 32],
    pub revocation_date: u64,
}

/// The reply to a verification request.
#[derive(Clone, Copy, Debug, PartialEq, Eq)]
pub struct VerificationResponse {
    pub request_id: u64,
    pub verified: bool,
}

/// The reply to a token transfer.
#[derive(Clone, Copy, Debug, PartialEq, Eq)]
pub struct TokenTransferResponse {
    pub transfer_id: u64,
    pub success: bool,
}

/// The reply to a credential verification.
#[derive(Clone, Copy, Debug, PartialEq, Eq)]
pub struct CredentialVerificationResponse {
    pub request_id: u64,
    pub verified: bool,
}

/// The reply to a role synchronization.
#[derive(Clone, Copy, Debug, PartialEq, Eq)]
pub struct RoleSyncResponse {
    pub request_id: u64,
    pub success: bool,
}

/// The reply to a DID resolution, with the DID document it found.
#[derive(Clone, Debug, PartialEq, Eq)]
pub struct DIDResolutionResponse {
    pub request_id: u64,
    pub resolved: bool,
    pub did_document: Vec<u8>,
}

/// An identity was verified.
#[derive(Clone, Debug, PartialEq, Eq)]
pub struct VerificationEvent {
    pub request_id: u64,
    pub did: String,
    pub verified: bool,
}

/// An asset was created on the remote chain.
#[derive(Clone, Debug, PartialEq, Eq)]
pub struct AssetCreationEvent {
    pub issuer: [u8; 32],
    pub name: String,
    pub symbol: String,
}

/// A credential was verified.
#[derive(Clone, Copy, Debug, PartialEq, Eq)]
pub struct CredentialVerificationEvent {
    pub request_id: u64,
    pub credential_hash: [u8; 32],
    pub verified: bool,
}

/// A role was granted to an account, or taken from it.
#[derive(Clone, Copy, Debug, PartialEq, Eq)]
pub struct RoleSyncEvent {
    pub request_id: u64,
    pub role: [u8; 32],
    pub account: [u8; 32],
    pub is_grant: bool,
}

/// A DID was resolved.
#[derive(Clone, Debug, PartialEq, Eq)]
pub struct DIDResolutionEvent {
    pub request_id: u64,
    pub did: String,
    pub resolved: bool,
}

/// A credential was stored under `handle`.
#[derive(Clone, Copy, Debug, PartialEq, Eq)]
pub struct CredentialStoredEvent {
    pub handle: usize,
    pub credential_hash: [u8; 32],
    pub owner: [u8; 32],
}

/// The credential under `handle` was revoked.
#[derive(Clone, Copy, Debug, PartialEq, Eq)]
pub struct CredentialRevokedEvent {
    pub handle: usize,
    pub credential_hash: [u8; 32],
    pub revocation_date: u64,
}

} // verus!
