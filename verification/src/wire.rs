//! Primitive encodings the wire format is built from: little-endian integers
//! as borsh writes them, SHA-256 digests, and UTF-8 text.

use borsh::BorshDeserialize;
use borsh::BorshSerialize;
use vstd::bytes::*;
use vstd::prelude::*;
use vstd::utf8::*;

verus! {

/// The SHA-256 digest of a byte string.
pub uninterp spec fn spec_sha256(data: Seq<u8>) -> Seq<u8>;

/// Calls `solana_program::hash::hash` and takes the digest's bytes. The
/// contract only names the digest: the same input always gives the same 32
/// bytes.
#[verifier::external_body]
pub(crate) fn sha256(data: &[u8]) -> (digest: [u8; 32])
    ensures
        digest@ == spec_sha256(data@),
{
    solana_program::hash::hash(data).to_bytes()
}

/// Calls borsh's `u64::try_from_slice`. Borsh reads exactly eight bytes in
/// little-endian order and rejects a slice that is shorter or longer.
#[verifier::external_body]
pub(crate) fn borsh_read_u64(data: &[u8]) -> (value: Option<u64>)
    ensures
        value is Some <==> data@.len() == 8,
        value matches Some(v) ==> v == spec_u64_from_le_bytes(data@),
{
    u64::try_from_slice(data).ok()
}

/// Calls borsh's `u32::try_from_slice`. Borsh reads exactly four bytes in
/// little-endian order and rejects a slice that is shorter or longer.
#[verifier::external_body]
pub(crate) fn borsh_read_u32(data: &[u8]) -> (value: Option<u32>)
    ensures
        value is Some <==> data@.len() == 4,
        value matches Some(v) ==> v == spec_u32_from_le_bytes(data@),
{
    u32::try_from_slice(data).ok()
}

/// Calls borsh's `try_to_vec` on a `u64`. Borsh writes the eight bytes of the
/// value in little-endian order; writing into a vector cannot fail.
#[verifier::external_body]
pub(crate) fn borsh_write_u64(value: u64) -> (bytes: Vec<u8>)
    ensures
        bytes@ == spec_u64_to_le_bytes(value),
{
    value.try_to_vec().unwrap()
}

/// Calls borsh's `try_to_vec` on a `u32`. Borsh writes the four bytes of the
/// value in little-endian order; writing into a vector cannot fail.
#[verifier::external_body]
pub(crate) fn borsh_write_u32(value: u32) -> (bytes: Vec<u8>)
    ensures
        bytes@ == spec_u32_to_le_bytes(value),
{
    value.try_to_vec().unwrap()
}

/// Calls `String::from_utf8`. The standard library accepts exactly the byte
/// strings that are valid UTF-8 and returns the text they encode.
#[verifier::external_body]
pub(crate) fn utf8_to_string(bytes: Vec<u8>) -> (text: Option<String>)
    ensures
        text is Some <==> valid_utf8(bytes@),
        text matches Some(s) ==> s@ == decode_utf8(bytes@),
{
    String::from_utf8(bytes).ok()
}

} // verus!
