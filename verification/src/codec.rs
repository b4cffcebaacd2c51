//! The wire codec: typed payloads and the message envelope, to and from a
//! fixed little-endian, length-prefixed layout.
//!
//! Every decoder checks a declared length against its bound, and the buffer
//! against the layout, before it reads a range.

use crate::laws::law_asset_creation_round_trip;
use crate::laws::law_credential_verification_round_trip;
use crate::laws::law_did_resolution_response_round_trip;
use crate::laws::law_flag_response_round_trip;
use crate::laws::law_payload_round_trip;
use crate::laws::law_role_sync_round_trip;
use crate::laws::law_token_transfer_round_trip;
use crate::laws::law_verification_round_trip;
use crate::types::Envelope;
use crate::types::ErrorCode;
use crate::types::MessagePayload;
use crate::types::MessageType;
use crate::wire::borsh_read_u32;
use crate::wire::borsh_read_u64;
use crate::wire::borsh_write_u32;
use crate::wire::borsh_write_u64;
use vstd::bytes::*;
use vstd::prelude::*;
use vstd::slice::*;

verus! {

broadcast use vstd::slice::group_slice_axioms;

/// Longest DID, in bytes.
pub const MAX_DID_LEN: usize = 128;

/// Longest asset name, in bytes.
pub const MAX_NAME_LEN: usize = 32;

/// Longest asset symbol, in bytes.
pub const MAX_SYMBOL_LEN: usize = 10;

/// The `u64` written little-endian at `at`.
pub open spec fn spec_u64_at(data: Seq<u8>, at: int) -> u64 {
    spec_u64_from_le_bytes(data.subrange(at, at + 8))
}

/// The `u32` written little-endian at `at`.
pub open spec fn spec_u32_at(data: Seq<u8>, at: int) -> u32 {
    spec_u32_from_le_bytes(data.subrange(at, at + 4))
}

/// The byte that stands for a flag.
pub open spec fn spec_flag_byte(flag: bool) -> u8 {
    if flag {
        1
    } else {
        0
    }
}

fn read_u64(data: &[u8], at: usize) -> (value: u64)
    requires
        at + 8 <= data@.len(),
    ensures
        value == spec_u64_at(data@, at as int),
{
    assert(data.len() == data@.len());
    // The range holds eight bytes, so the read always succeeds.
    match borsh_read_u64(slice_subrange(data, at, at + 8)) {
        Some(v) => v,
        None => 0,
    }
}

pub(crate) fn read_u32(data: &[u8], at: usize) -> (value: u32)
    requires
        at + 4 <= data@.len(),
    ensures
        value == spec_u32_at(data@, at as int),
{
    assert(data.len() == data@.len());
    // The range holds four bytes, so the read always succeeds.
    match borsh_read_u32(slice_subrange(data, at, at + 4)) {
        Some(v) => v,
        None => 0,
    }
}

pub(crate) fn read_bytes(data: &[u8], at: usize, len: usize) -> (out: Vec<u8>)
    requires
        at + len <= data@.len(),
    ensures
        out@ == data@.subrange(at as int, at + len),
{
    assert(data.len() == data@.len());
    slice_to_vec(slice_subrange(data, at, at + len))
}

fn read_key(data: &[u8], at: usize) -> (out: [u8; 32])
    requires
        at + 32 <= data@.len(),
    ensures
        out@ == data@.subrange(at as int, at + 32),
{
    assert(data.len() == data@.len());
    let mut out = [0u8; 32];
    let mut i: usize = 0;
    while i < 32
        invariant
            i <= 32,
            at + 32 <= data@.len(),
            data.len() == data@.len(),
            forall|j: int| 0 <= j < i ==> out@[j] == data@[at + j],
        decreases 32 - i,
    {
        out[i] = data[at + i];
        i += 1;
    }
    assert(out@ =~= data@.subrange(at as int, at + 32));
    out
}

fn flag_byte(flag: bool) -> (byte: u8)
    ensures
        byte == spec_flag_byte(flag),
{
    if flag {
        1
    } else {
        0
    }
}

/// Layout of a verification (or DID resolution) request: the request
/// identifier, the DID's length, the DID.
pub open spec fn spec_encode_verification(request_id: u64, did: Seq<u8>) -> Seq<u8> {
    spec_u64_to_le_bytes(request_id) + spec_u32_to_le_bytes(did.len() as u32) + did
}

/// What a verification request decodes to. Bytes after the DID are ignored.
pub open spec fn spec_decode_verification(data: Seq<u8>) -> Result<(u64, Seq<u8>), ErrorCode> {
    if data.len() < 12 {
        Err(ErrorCode::MalformedPayload)
    } else {
        let did_len = spec_u32_at(data, 8) as int;
        if did_len > MAX_DID_LEN {
            Err(ErrorCode::FieldTooLong)
        } else if data.len() < 12 + did_len {
            Err(ErrorCode::MalformedPayload)
        } else {
            Ok((spec_u64_at(data, 0), data.subrange(12, 12 + did_len)))
        }
    }
}

/// Encodes a verification request. A DID over 128 bytes is refused.
pub fn serialize_verification(request_id: u64, did: &[u8]) -> (r: Result<Vec<u8>, ErrorCode>)
    ensures
        did@.len() > MAX_DID_LEN <==> r == Err::<Vec<u8>, ErrorCode>(ErrorCode::FieldTooLong),
        did@.len() <= MAX_DID_LEN <==> r is Ok,
        r matches Ok(bytes) ==> bytes@ == spec_encode_verification(request_id, did@),
        r matches Ok(bytes) ==> spec_decode_verification(bytes@) == Ok::<
            (u64, Seq<u8>),
            ErrorCode,
        >((request_id, did@)),
{
    if did.len() > MAX_DID_LEN {
        return Err(ErrorCode::FieldTooLong);
    }
    let mut out = borsh_write_u64(request_id);
    let len_bytes = borsh_write_u32(did.len() as u32);
    out.extend_from_slice(len_bytes.as_slice());
    out.extend_from_slice(did);
    proof {
        law_verification_round_trip(request_id, did@);
    }
    Ok(out)
}

/// Decodes a verification (or DID resolution) request into its identifier and
/// the DID's bytes.
pub fn deserialize_verification(data: &[u8]) -> (r: Result<(u64, Vec<u8>), ErrorCode>)
    ensures
        match r {
            Ok((request_id, did)) => spec_decode_verification(data@) == Ok::<
                (u64, Seq<u8>),
                ErrorCode,
            >((request_id, did@)),
            Err(e) => spec_decode_verification(data@) == Err::<(u64, Seq<u8>), ErrorCode>(e),
        },
{
    if data.len() < 12 {
        return Err(ErrorCode::MalformedPayload);
    }
    let request_id = read_u64(data, 0);
    let did_len = read_u32(data, 8) as usize;
    if did_len > MAX_DID_LEN {
        return Err(ErrorCode::FieldTooLong);
    }
    if data.len() - 12 < did_len {
        return Err(ErrorCode::MalformedPayload);
    }
    let did = read_bytes(data, 12, did_len);
    Ok((request_id, did))
}

/// Layout of an asset-creation notice: the issuer's key, then the name and
/// the symbol, each behind its length.
pub open spec fn spec_encode_asset_creation(
    issuer: Seq<u8>,
    name: Seq<u8>,
    symbol: Seq<u8>,
) -> Seq<u8> {
    issuer + spec_u32_to_le_bytes(name.len() as u32) + name + spec_u32_to_le_bytes(
        symbol.len() as u32,
    ) + symbol
}

/// What an asset-creation notice decodes to: issuer, name, symbol. Bytes
/// after the symbol are ignored.
pub open spec fn spec_decode_asset_creation(data: Seq<u8>) -> Result<
    (Seq<u8>, Seq<u8>, Seq<u8>),
    ErrorCode,
> {
    if data.len() < 36 {
        Err(ErrorCode::MalformedPayload)
    } else {
        let name_len = spec_u32_at(data, 32) as int;
        if name_len > MAX_NAME_LEN {
            Err(ErrorCode::FieldTooLong)
        } else if data.len() < 40 + name_len {
            Err(ErrorCode::MalformedPayload)
        } else {
            let symbol_len = spec_u32_at(data, 36 + name_len) as int;
            if symbol_len > MAX_SYMBOL_LEN {
                Err(ErrorCode::FieldTooLong)
            } else if data.len() < 40 + name_len + symbol_len {
                Err(ErrorCode::MalformedPayload)
            } else {
                Ok(
                    (
                        data.subrange(0, 32),
                        data.subrange(36, 36 + name_len),
                        data.subrange(40 + name_len, 40 + name_len + symbol_len),
                    ),
                )
            }
        }
    }
}

/// Encodes an asset-creation notice. A name over 32 bytes or a symbol over 10
/// bytes is refused.
pub fn serialize_asset_creation(issuer: &[u8; 32], name: &[u8], symbol: &[u8]) -> (r: Result<
    Vec<u8>,
    ErrorCode,
>)
    ensures
        (name@.len() > MAX_NAME_LEN || symbol@.len() > MAX_SYMBOL_LEN) <==> r == Err::<
            Vec<u8>,
            ErrorCode,
        >(ErrorCode::FieldTooLong),
        (name@.len() <= MAX_NAME_LEN && symbol@.len() <= MAX_SYMBOL_LEN) <==> r is Ok,
        r matches Ok(bytes) ==> bytes@ == spec_encode_asset_creation(issuer@, name@, symbol@),
        r matches Ok(bytes) ==> spec_decode_asset_creation(bytes@) == Ok::<
            (Seq<u8>, Seq<u8>, Seq<u8>),
            ErrorCode,
        >((issuer@, name@, symbol@)),
{
    if name.len() > MAX_NAME_LEN || symbol.len() > MAX_SYMBOL_LEN {
        return Err(ErrorCode::FieldTooLong);
    }
    let mut out: Vec<u8> = Vec::new();
    out.extend_from_slice(issuer.as_slice());
    let name_len = borsh_write_u32(name.len() as u32);
    out.extend_from_slice(name_len.as_slice());
    out.extend_from_slice(name);
    let symbol_len = borsh_write_u32(symbol.len() as u32);
    out.extend_from_slice(symbol_len.as_slice());
    out.extend_from_slice(symbol);
    assert(out@ =~= spec_encode_asset_creation(issuer@, name@, symbol@));
    proof {
        law_asset_creation_round_trip(issuer@, name@, symbol@);
    }
    Ok(out)
}

/// Decodes an asset-creation notice into the issuer's key and the bytes of
/// the name and the symbol.
pub fn deserialize_asset_creation(data: &[u8]) -> (r: Result<
    ([u8; 32], Vec<u8>, Vec<u8>),
    ErrorCode,
>)
    ensures
        match r {
            Ok((issuer, name, symbol)) => spec_decode_asset_creation(data@) == Ok::<
                (Seq<u8>, Seq<u8>, Seq<u8>),
                ErrorCode,
            >((issuer@, name@, symbol@)),
            Err(e) => spec_decode_asset_creation(data@) == Err::<
                (Seq<u8>, Seq<u8>, Seq<u8>),
                ErrorCode,
            >(e),
        },
{
    if data.len() < 36 {
        return Err(ErrorCode::MalformedPayload);
    }
    let issuer = read_key(data, 0);
    let name_len = read_u32(data, 32) as usize;
    if name_len > MAX_NAME_LEN {
        return Err(ErrorCode::FieldTooLong);
    }
    if data.len() - 36 < name_len + 4 {
        return Err(ErrorCode::MalformedPayload);
    }
    let name = read_bytes(data, 36, name_len);
    let symbol_start = 36 + name_len;
    let symbol_len = read_u32(data, symbol_start) as usize;
    if symbol_len > MAX_SYMBOL_LEN {
        return Err(ErrorCode::FieldTooLong);
    }
    if data.len() - symbol_start - 4 < symbol_len {
        return Err(ErrorCode::MalformedPayload);
    }
    let symbol = read_bytes(data, symbol_start + 4, symbol_len);
    Ok((issuer, name, symbol))
}

/// Layout of a token transfer: the transfer identifier, the token's address,
/// the amount.
pub open spec fn spec_encode_token_transfer(
    transfer_id: u64,
    token_address: Seq<u8>,
    amount: u64,
) -> Seq<u8> {
    spec_u64_to_le_bytes(transfer_id) + token_address + spec_u64_to_le_bytes(amount)
}

/// What a token transfer decodes to. Bytes after the amount are ignored.
pub open spec fn spec_decode_token_transfer(data: Seq<u8>) -> Result<
    (u64, Seq<u8>, u64),
    ErrorCode,
> {
    if data.len() < 48 {
        Err(ErrorCode::MalformedPayload)
    } else {
        Ok((spec_u64_at(data, 0), data.subrange(8, 40), spec_u64_at(data, 40)))
    }
}

/// Encodes a token transfer in its 48 bytes.
pub fn serialize_token_transfer(transfer_id: u64, token_address: &[u8; 32], amount: u64) -> (bytes:
    Vec<u8>)
    ensures
        bytes@ == spec_encode_token_transfer(transfer_id, token_address@, amount),
        spec_decode_token_transfer(bytes@) == Ok::<(u64, Seq<u8>, u64), ErrorCode>(
            (transfer_id, token_address@, amount),
        ),
{
    let mut out = borsh_write_u64(transfer_id);
    out.extend_from_slice(token_address.as_slice());
    let amount_bytes = borsh_write_u64(amount);
    out.extend_from_slice(amount_bytes.as_slice());
    assert(out@ =~= spec_encode_token_transfer(transfer_id, token_address@, amount));
    proof {
        law_token_transfer_round_trip(transfer_id, token_address@, amount);
    }
    out
}

/// Decodes a token transfer into its identifier, the token's address and the
/// amount.
pub fn deserialize_token_transfer(data: &[u8]) -> (r: Result<(u64, [u8; 32], u64), ErrorCode>)
    ensures
        match r {
            Ok((transfer_id, token_address, amount)) => spec_decode_token_transfer(data@) == Ok::<
                (u64, Seq<u8>, u64),
                ErrorCode,
            >((transfer_id, token_address@, amount)),
            Err(e) => spec_decode_token_transfer(data@) == Err::<(u64, Seq<u8>, u64), ErrorCode>(
                e,
            ),
        },
{
    if data.len() < 48 {
        return Err(ErrorCode::MalformedPayload);
    }
    let transfer_id = read_u64(data, 0);
    let token_address = read_key(data, 8);
    let amount = read_u64(data, 40);
    Ok((transfer_id, token_address, amount))
}

/// Layout of a credential verification: the request identifier, the
/// credential's hash.
pub open spec fn spec_encode_credential_verification(
    request_id: u64,
    credential_hash: Seq<u8>,
) -> Seq<u8> {
    spec_u64_to_le_bytes(request_id) + credential_hash
}

/// What a credential verification decodes to. Bytes after the hash are
/// ignored.
pub open spec fn spec_decode_credential_verification(data: Seq<u8>) -> Result<
    (u64, Seq<u8>),
    ErrorCode,
> {
    if data.len() < 40 {
        Err(ErrorCode::MalformedPayload)
    } else {
        Ok((spec_u64_at(data, 0), data.subrange(8, 40)))
    }
}

/// Encodes a credential verification in its 40 bytes.
pub fn serialize_credential_verification(request_id: u64, credential_hash: &[u8; 32]) -> (bytes:
    Vec<u8>)
    ensures
        bytes@ == spec_encode_credential_verification(request_id, credential_hash@),
        spec_decode_credential_verification(bytes@) == Ok::<(u64, Seq<u8>), ErrorCode>(
            (request_id, credential_hash@),
        ),
{
    let mut out = borsh_write_u64(request_id);
    out.extend_from_slice(credential_hash.as_slice());
    assert(out@ =~= spec_encode_credential_verification(request_id, credential_hash@));
    proof {
        law_credential_verification_round_trip(request_id, credential_hash@);
    }
    out
}

/// Decodes a credential verification into its identifier and the hash.
pub fn deserialize_credential_verification(data: &[u8]) -> (r: Result<(u64, [u8; 32]), ErrorCode>)
    ensures
        match r {
            Ok((request_id, credential_hash)) => spec_decode_credential_verification(data@) == Ok::<
                (u64, Seq<u8>),
                ErrorCode,
            >((request_id, credential_hash@)),
            Err(e) => spec_decode_credential_verification(data@) == Err::<
                (u64, Seq<u8>),
                ErrorCode,
            >(e),
        },
{
    if data.len() < 40 {
        return Err(ErrorCode::MalformedPayload);
    }
    let request_id = read_u64(data, 0);
    let credential_hash = read_key(data, 8);
    Ok((request_id, credential_hash))
}

/// Layout of a role synchronization: the request identifier, the role, the
/// account, and one byte that says whether the role is granted.
pub open spec fn spec_encode_role_sync(
    request_id: u64,
    role: Seq<u8>,
    account: Seq<u8>,
    is_grant: bool,
) -> Seq<u8> {
    spec_u64_to_le_bytes(request_id) + role + account + seq![spec_flag_byte(is_grant)]
}

/// What a role synchronization decodes to. Any non-zero byte grants; bytes
/// after it are ignored.
pub open spec fn spec_decode_role_sync(data: Seq<u8>) -> Result<
    (u64, Seq<u8>, Seq<u8>, bool),
    ErrorCode,
> {
    if data.len() < 73 {
        Err(ErrorCode::MalformedPayload)
    } else {
        Ok((spec_u64_at(data, 0), data.subrange(8, 40), data.subrange(40, 72), data[72] != 0))
    }
}

/// Encodes a role synchronization in its 73 bytes.
pub fn serialize_role_sync(
    request_id: u64,
    role: &[u8; 32],
    account: &[u8; 32],
    is_grant: bool,
) -> (bytes: Vec<u8>)
    ensures
        bytes@ == spec_encode_role_sync(request_id, role@, account@, is_grant),
        spec_decode_role_sync(bytes@) == Ok::<(u64, Seq<u8>, Seq<u8>, bool), ErrorCode>(
            (request_id, role@, account@, is_grant),
        ),
{
    let mut out = borsh_write_u64(request_id);
    out.extend_from_slice(role.as_slice());
    out.extend_from_slice(account.as_slice());
    out.push(flag_byte(is_grant));
    assert(out@ =~= spec_encode_role_sync(request_id, role@, account@, is_grant));
    proof {
        law_role_sync_round_trip(request_id, role@, account@, is_grant);
    }
    out
}

/// Decodes a role synchronization into its identifier, the role, the account
/// and the grant flag.
pub fn deserialize_role_sync(data: &[u8]) -> (r: Result<
    (u64, [u8; 32], [u8; 32], bool),
    ErrorCode,
>)
    ensures
        match r {
            Ok((request_id, role, account, is_grant)) => spec_decode_role_sync(data@) == Ok::<
                (u64, Seq<u8>, Seq<u8>, bool),
                ErrorCode,
            >((request_id, role@, account@, is_grant)),
            Err(e) => spec_decode_role_sync(data@) == Err::<
                (u64, Seq<u8>, Seq<u8>, bool),
                ErrorCode,
            >(e),
        },
{
    if data.len() < 73 {
        return Err(ErrorCode::MalformedPayload);
    }
    let request_id = read_u64(data, 0);
    let role = read_key(data, 8);
    let account = read_key(data, 40);
    let is_grant = data[72] != 0;
    Ok((request_id, role, account, is_grant))
}

/// Layout of a reply that reports one flag for one request: the identifier,
/// then the flag's byte.
pub open spec fn spec_encode_flag_response(id: u64, flag: bool) -> Seq<u8> {
    spec_u64_to_le_bytes(id) + seq![spec_flag_byte(flag)]
}

/// What such a reply decodes to. It takes exactly nine bytes, and the flag's
/// byte is zero or one.
pub open spec fn spec_decode_flag_response(data: Seq<u8>) -> Result<(u64, bool), ErrorCode> {
    if data.len() != 9 || data[8] > 1 {
        Err(ErrorCode::MalformedPayload)
    } else {
        Ok((spec_u64_at(data, 0), data[8] == 1))
    }
}

/// Layout of a DID resolution reply: the identifier, the flag's byte, then the
/// DID document behind its length.
pub open spec fn spec_encode_did_resolution_response(
    request_id: u64,
    resolved: bool,
    did_document: Seq<u8>,
) -> Seq<u8> {
    spec_u64_to_le_bytes(request_id) + seq![spec_flag_byte(resolved)] + spec_u32_to_le_bytes(
        did_document.len() as u32,
    ) + did_document
}

/// What a DID resolution reply decodes to. The document fills the buffer to
/// its end.
pub open spec fn spec_decode_did_resolution_response(data: Seq<u8>) -> Result<
    (u64, bool, Seq<u8>),
    ErrorCode,
> {
    if data.len() < 13 || data[8] > 1 || data.len() != 13 + spec_u32_at(data, 9) {
        Err(ErrorCode::MalformedPayload)
    } else {
        Ok((spec_u64_at(data, 0), data[8] == 1, data.subrange(13, data.len() as int)))
    }
}

fn serialize_flag_response(id: u64, flag: bool) -> (bytes: Vec<u8>)
    ensures
        bytes@ == spec_encode_flag_response(id, flag),
        spec_decode_flag_response(bytes@) == Ok::<(u64, bool), ErrorCode>((id, flag)),
{
    let mut out = borsh_write_u64(id);
    out.push(flag_byte(flag));
    assert(out@ =~= spec_encode_flag_response(id, flag));
    proof {
        law_flag_response_round_trip(id, flag);
    }
    out
}

fn deserialize_flag_response(data: &[u8]) -> (r: Result<(u64, bool), ErrorCode>)
    ensures
        r == spec_decode_flag_response(data@),
{
    if data.len() != 9 || data[8] > 1 {
        return Err(ErrorCode::MalformedPayload);
    }
    let id = read_u64(data, 0);
    Ok((id, data[8] == 1))
}

impl crate::types::VerificationResponse {
    /// The nine bytes of this reply.
    pub fn serialize(&self) -> (bytes: Vec<u8>)
        ensures
            bytes@ == spec_encode_flag_response(self.request_id, self.verified),
            spec_decode_flag_response(bytes@) == Ok::<(u64, bool), ErrorCode>(
                (self.request_id, self.verified),
            ),
    {
        serialize_flag_response(self.request_id, self.verified)
    }

    /// Reads a reply back from its nine bytes.
    pub fn deserialize(data: &[u8]) -> (r: Result<Self, ErrorCode>)
        ensures
            match r {
                Ok(v) => spec_decode_flag_response(data@) == Ok::<(u64, bool), ErrorCode>(
                    (v.request_id, v.verified),
                ),
                Err(e) => spec_decode_flag_response(data@) == Err::<(u64, bool), ErrorCode>(e),
            },
    {
        match deserialize_flag_response(data) {
            Ok((request_id, verified)) => Ok(
                crate::types::VerificationResponse { request_id, verified },
            ),
            Err(e) => Err(e),
        }
    }
}

impl crate::types::TokenTransferResponse {
    /// The nine bytes of this reply.
    pub fn serialize(&self) -> (bytes: Vec<u8>)
        ensures
            bytes@ == spec_encode_flag_response(self.transfer_id, self.success),
            spec_decode_flag_response(bytes@) == Ok::<(u64, bool), ErrorCode>(
                (self.transfer_id, self.success),
            ),
    {
        serialize_flag_response(self.transfer_id, self.success)
    }

    /// Reads a reply back from its nine bytes.
    pub fn deserialize(data: &[u8]) -> (r: Result<Self, ErrorCode>)
        ensures
            match r {
                Ok(v) => spec_decode_flag_response(data@) == Ok::<(u64, bool), ErrorCode>(
                    (v.transfer_id, v.success),
                ),
                Err(e) => spec_decode_flag_response(data@) == Err::<(u64, bool), ErrorCode>(e),
            },
    {
        match deserialize_flag_response(data) {
            Ok((transfer_id, success)) => Ok(
                crate::types::TokenTransferResponse { transfer_id, success },
            ),
            Err(e) => Err(e),
        }
    }
}

impl crate::types::CredentialVerificationResponse {
    /// The nine bytes of this reply.
    pub fn serialize(&self) -> (bytes: Vec<u8>)
        ensures
            bytes@ == spec_encode_flag_response(self.request_id, self.verified),
            spec_decode_flag_response(bytes@) == Ok::<(u64, bool), ErrorCode>(
                (self.request_id, self.verified),
            ),
    {
        serialize_flag_response(self.request_id, self.verified)
    }

    /// Reads a reply back from its nine bytes.
    pub fn deserialize(data: &[u8]) -> (r: Result<Self, ErrorCode>)
        ensures
            match r {
                Ok(v) => spec_decode_flag_response(data@) == Ok::<(u64, bool), ErrorCode>(
                    (v.request_id, v.verified),
                ),
                Err(e) => spec_decode_flag_response(data@) == Err::<(u64, bool), ErrorCode>(e),
            },
    {
        match deserialize_flag_response(data) {
            Ok((request_id, verified)) => Ok(
                crate::types::CredentialVerificationResponse { request_id, verified },
            ),
            Err(e) => Err(e),
        }
    }
}

impl crate::types::RoleSyncResponse {
    /// The nine bytes of this reply.
    pub fn serialize(&self) -> (bytes: Vec<u8>)
        ensures
            bytes@ == spec_encode_flag_response(self.request_id, self.success),
            spec_decode_flag_response(bytes@) == Ok::<(u64, bool), ErrorCode>(
                (self.request_id, self.success),
            ),
    {
        serialize_flag_response(self.request_id, self.success)
    }

    /// Reads a reply back from its nine bytes.
    pub fn deserialize(data: &[u8]) -> (r: Result<Self, ErrorCode>)
        ensures
            match r {
                Ok(v) => spec_decode_flag_response(data@) == Ok::<(u64, bool), ErrorCode>(
                    (v.request_id, v.success),
                ),
                Err(e) => spec_decode_flag_response(data@) == Err::<(u64, bool), ErrorCode>(e),
            },
    {
        match deserialize_flag_response(data) {
            Ok((request_id, success)) => Ok(crate::types::RoleSyncResponse { request_id, success }),
            Err(e) => Err(e),
        }
    }
}

impl crate::types::DIDResolutionResponse {
    /// The bytes of this reply. A document whose length does not fit the
    /// four-byte prefix is refused.
    pub fn serialize(&self) -> (r: Result<Vec<u8>, ErrorCode>)
        ensures
            self.did_document@.len() > u32::MAX <==> r == Err::<Vec<u8>, ErrorCode>(
                ErrorCode::FieldTooLong,
            ),
            self.did_document@.len() <= u32::MAX <==> r is Ok,
            r matches Ok(bytes) ==> bytes@ == spec_encode_did_resolution_response(
                self.request_id,
                self.resolved,
                self.did_document@,
            ),
            r matches Ok(bytes) ==> spec_decode_did_resolution_response(bytes@) == Ok::<
                (u64, bool, Seq<u8>),
                ErrorCode,
            >((self.request_id, self.resolved, self.did_document@)),
    {
        if self.did_document.len() > 0xffff_ffff {
            return Err(ErrorCode::FieldTooLong);
        }
        let mut out = borsh_write_u64(self.request_id);
        out.push(flag_byte(self.resolved));
        let len_bytes = borsh_write_u32(self.did_document.len() as u32);
        out.extend_from_slice(len_bytes.as_slice());
        out.extend_from_slice(self.did_document.as_slice());
        assert(out@ =~= spec_encode_did_resolution_response(
            self.request_id,
            self.resolved,
            self.did_document@,
        ));
        proof {
            law_did_resolution_response_round_trip(
                self.request_id,
                self.resolved,
                self.did_document@,
            );
        }
        Ok(out)
    }

    /// Reads a reply back from its bytes.
    pub fn deserialize(data: &[u8]) -> (r: Result<Self, ErrorCode>)
        ensures
            match r {
                Ok(v) => spec_decode_did_resolution_response(data@) == Ok::<
                    (u64, bool, Seq<u8>),
                    ErrorCode,
                >((v.request_id, v.resolved, v.did_document@)),
                Err(e) => spec_decode_did_resolution_response(data@) == Err::<
                    (u64, bool, Seq<u8>),
                    ErrorCode,
                >(e),
            },
    {
        if data.len() < 13 || data[8] > 1 {
            return Err(ErrorCode::MalformedPayload);
        }
        let request_id = read_u64(data, 0);
        let doc_len = read_u32(data, 9);
        if data.len() - 13 != doc_len as usize {
            return Err(ErrorCode::MalformedPayload);
        }
        let did_document = read_bytes(data, 13, data.len() - 13);
        Ok(crate::types::DIDResolutionResponse { request_id, resolved: data[8] == 1, did_document })
    }
}

/// Whether a buffer has the frame of an envelope: a tag, a length, that many
/// bytes of data, a timestamp and a 32-byte identifier, and nothing more.
pub open spec fn spec_well_framed(bytes: Seq<u8>) -> bool {
    bytes.len() >= 5 && bytes.len() == 45 + spec_u32_at(bytes, 1)
}

/// Layout of an envelope.
pub open spec fn spec_encode_payload(envelope: Envelope) -> Seq<u8> {
    seq![envelope.msg_type.spec_tag()] + spec_u32_to_le_bytes(envelope.data.len() as u32)
        + envelope.data + spec_u64_to_le_bytes(envelope.timestamp) + envelope.message_id
}

/// What an envelope decodes to. An ill-framed buffer is malformed; a
/// well-framed one with an unknown tag has an invalid message type.
pub open spec fn spec_decode_payload(bytes: Seq<u8>) -> Result<Envelope, ErrorCode> {
    if !spec_well_framed(bytes) {
        Err(ErrorCode::MalformedPayload)
    } else {
        let data_len = spec_u32_at(bytes, 1) as int;
        match MessageType::spec_from_tag(bytes[0]) {
            None => Err(ErrorCode::InvalidMessageType),
            Some(msg_type) => Ok(
                Envelope {
                    msg_type,
                    data: bytes.subrange(5, 5 + data_len),
                    timestamp: spec_u64_at(bytes, 5 + data_len),
                    message_id: bytes.subrange(13 + data_len, 45 + data_len),
                },
            ),
        }
    }
}

/// Encodes an envelope. Data whose length does not fit the four-byte prefix
/// is refused.
pub fn serialize(payload: &MessagePayload) -> (r: Result<Vec<u8>, ErrorCode>)
    ensures
        payload.data@.len() > u32::MAX <==> r == Err::<Vec<u8>, ErrorCode>(
            ErrorCode::FieldTooLong,
        ),
        payload.data@.len() <= u32::MAX <==> r is Ok,
        r matches Ok(bytes) ==> bytes@ == spec_encode_payload(payload@),
        r matches Ok(bytes) ==> spec_decode_payload(bytes@) == Ok::<Envelope, ErrorCode>(
            payload@,
        ),
{
    if payload.data.len() > 0xffff_ffff {
        return Err(ErrorCode::FieldTooLong);
    }
    let mut out: Vec<u8> = Vec::new();
    out.push(payload.msg_type.tag());
    let len_bytes = borsh_write_u32(payload.data.len() as u32);
    out.extend_from_slice(len_bytes.as_slice());
    out.extend_from_slice(payload.data.as_slice());
    let time_bytes = borsh_write_u64(payload.timestamp);
    out.extend_from_slice(time_bytes.as_slice());
    out.extend_from_slice(payload.message_id.as_slice());
    assert(out@ =~= spec_encode_payload(payload@));
    proof {
        law_payload_round_trip(payload@);
    }
    Ok(out)
}

/// Checks the frame of an envelope and hands back the length of its data.
pub(crate) fn check_frame(bytes: &[u8]) -> (r: Option<usize>)
    ensures
        r is Some <==> spec_well_framed(bytes@),
        r matches Some(data_len) ==> data_len == spec_u32_at(bytes@, 1) && bytes@.len() == 45
            + data_len,
{
    if bytes.len() < 5 {
        return None;
    }
    let data_len = read_u32(bytes, 1);
    if bytes.len() < 45 || bytes.len() - 45 != data_len as usize {
        return None;
    }
    Some(data_len as usize)
}

/// Decodes an envelope.
pub fn deserialize(bytes: &[u8]) -> (r: Result<MessagePayload, ErrorCode>)
    ensures
        match r {
            Ok(payload) => spec_decode_payload(bytes@) == Ok::<Envelope, ErrorCode>(payload@),
            Err(e) => spec_decode_payload(bytes@) == Err::<Envelope, ErrorCode>(e),
        },
{
    match check_frame(bytes) {
        None => Err(ErrorCode::MalformedPayload),
        Some(data_len) => match MessageType::from_tag(bytes[0]) {
            None => Err(ErrorCode::InvalidMessageType),
            Some(msg_type) => Ok(
                MessagePayload {
                    msg_type,
                    data: read_bytes(bytes, 5, data_len),
                    timestamp: read_u64(bytes, 5 + data_len),
                    message_id: read_key(bytes, 13 + data_len),
                },
            ),
        },
    }
}

} // verus!
