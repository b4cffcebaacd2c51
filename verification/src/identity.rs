//! Identity accounts: one record per owner, bound to an Ethereum address and a
//! DID, and the instructions that create, verify and update it.

use crate::codec::read_bytes;
use crate::codec::read_u32;
use crate::codec::spec_u32_at;
use crate::registry::same_key;
use crate::wire::utf8_to_string;
use vstd::prelude::*;
use vstd::utf8::*;

verus! {

broadcast use vstd::slice::group_slice_axioms;

/// An identity record.
#[derive(Clone, Debug, PartialEq, Eq)]
pub struct IdentityAccount {
    pub owner: [u8; 32],
    pub ethereum_address: [u8; 20],
    pub did: String,
    pub verification_data: String,
    pub is_verified: bool,
}

/// What can be asked of an identity record.
#[derive(Clone, Debug, PartialEq, Eq)]
pub enum IdentityInstruction {
    /// Initialize a new identity.
    Initialize { ethereum_address: [u8; 20], did: String },
    /// Set the verification status; called by a verifier.
    Verify { verification_data: String },
    /// Replace the DID.
    UpdateDid { new_did: String },
    /// Replace the Ethereum address.
    UpdateEthereumAddress { new_ethereum_address: [u8; 20] },
}

/// Why an instruction was refused.
#[derive(Clone, Copy, Debug, PartialEq, Eq, Structural)]
pub enum IdentityError {
    /// The instruction's bytes do not follow its layout.
    InvalidInstructionData,
    /// The second account did not sign.
    MissingRequiredSignature,
    /// The identity account does not belong to this program.
    IncorrectProgramId,
    /// The signer does not own the identity.
    InvalidAccountData,
}

/// The account that stands behind an instruction: its key, and whether it
/// signed.
#[derive(Clone, Copy, Debug, PartialEq, Eq)]
pub struct Signer {
    pub key: [u8; 32],
    pub is_signer: bool,
}

impl IdentityInstruction {
    /// Whether only the identity's owner may give this instruction.
    pub open spec fn spec_owner_only(self) -> bool {
        self is UpdateDid || self is UpdateEthereumAddress
    }
}

/// The bytes of a text that stands at `at` behind its four-byte length and
/// fills the buffer to its end, if the buffer has that shape.
pub open spec fn spec_text_at(data: Seq<u8>, at: int) -> Option<Seq<u8>> {
    if data.len() < at + 4 || data.len() != at + 4 + spec_u32_at(data, at) {
        None
    } else {
        Some(data.subrange(at + 4, data.len() as int))
    }
}

/// Whether `instruction` is what the bytes of an instruction say: a tag, then
/// the fields of that variant, an address in 20 bytes and a text behind its
/// length, with nothing left over.
pub open spec fn spec_encodes(data: Seq<u8>, instruction: IdentityInstruction) -> bool {
    data.len() >= 1 && match instruction {
        IdentityInstruction::Initialize { ethereum_address, did } => {
            &&& data[0] == 0
            &&& data.len() >= 21
            &&& ethereum_address@ == data.subrange(1, 21)
            &&& spec_text_at(data, 21) matches Some(text)
            &&& valid_utf8(text)
            &&& did@ == decode_utf8(text)
        },
        IdentityInstruction::Verify { verification_data } => {
            &&& data[0] == 1
            &&& spec_text_at(data, 1) matches Some(text)
            &&& valid_utf8(text)
            &&& verification_data@ == decode_utf8(text)
        },
        IdentityInstruction::UpdateDid { new_did } => {
            &&& data[0] == 2
            &&& spec_text_at(data, 1) matches Some(text)
            &&& valid_utf8(text)
            &&& new_did@ == decode_utf8(text)
        },
        IdentityInstruction::UpdateEthereumAddress { new_ethereum_address } => {
            &&& data[0] == 3
            &&& data.len() == 21
            &&& new_ethereum_address@ == data.subrange(1, 21)
        },
    }
}

/// Whether the bytes follow the layout of some instruction.
pub open spec fn spec_instruction_well_formed(data: Seq<u8>) -> bool {
    data.len() >= 1 && if data[0] == 0 {
        data.len() >= 21 && spec_text_at(data, 21) is Some && valid_utf8(
            spec_text_at(data, 21).unwrap(),
        )
    } else if data[0] == 1 || data[0] == 2 {
        spec_text_at(data, 1) is Some && valid_utf8(spec_text_at(data, 1).unwrap())
    } else {
        data[0] == 3 && data.len() == 21
    }
}

fn read_address(data: &[u8], at: usize) -> (out: [u8; 20])
    requires
        at + 20 <= data@.len(),
    ensures
        out@ == data@.subrange(at as int, at + 20),
{
    let mut out = [0u8; 20];
    let mut i: usize = 0;
    while i < 20
        invariant
            i <= 20,
            at + 20 <= data@.len(),
            data.len() == data@.len(),
            forall|j: int| 0 <= j < i ==> out@[j] == data@[at + j],
        decreases 20 - i,
    {
        out[i] = data[at + i];
        i += 1;
    }
    assert(out@ =~= data@.subrange(at as int, at + 20));
    out
}

/// Reads the text that stands at `at` behind its length and fills the buffer
/// to its end.
fn read_text(data: &[u8], at: usize) -> (text: Option<String>)
    requires
        at <= data@.len(),
    ensures
        text is Some <==> spec_text_at(data@, at as int) is Some && valid_utf8(
            spec_text_at(data@, at as int).unwrap(),
        ),
        text matches Some(s) ==> s@ == decode_utf8(spec_text_at(data@, at as int).unwrap()),
{
    if data.len() - at < 4 {
        return None;
    }
    let len = read_u32(data, at);
    if data.len() - at - 4 != len as usize {
        return None;
    }
    utf8_to_string(read_bytes(data, at + 4, data.len() - at - 4))
}

/// Decodes an instruction from its bytes. Bytes that follow no instruction's
/// layout, or hold text that is not UTF-8, are refused.
pub fn deserialize_instruction(data: &[u8]) -> (r: Result<IdentityInstruction, IdentityError>)
    ensures
        spec_instruction_well_formed(data@) <==> r is Ok,
        !spec_instruction_well_formed(data@) <==> r == Err::<IdentityInstruction, IdentityError>(
            IdentityError::InvalidInstructionData,
        ),
        r matches Ok(instruction) ==> spec_encodes(data@, instruction),
{
    if data.len() < 1 {
        return Err(IdentityError::InvalidInstructionData);
    }
    let tag = data[0];
    if tag == 0 {
        if data.len() < 21 {
            return Err(IdentityError::InvalidInstructionData);
        }
        let ethereum_address = read_address(data, 1);
        match read_text(data, 21) {
            Some(did) => Ok(IdentityInstruction::Initialize { ethereum_address, did }),
            None => Err(IdentityError::InvalidInstructionData),
        }
    } else if tag == 1 {
        match read_text(data, 1) {
            Some(verification_data) => Ok(IdentityInstruction::Verify { verification_data }),
            None => Err(IdentityError::InvalidInstructionData),
        }
    } else if tag == 2 {
        match read_text(data, 1) {
            Some(new_did) => Ok(IdentityInstruction::UpdateDid { new_did }),
            None => Err(IdentityError::InvalidInstructionData),
        }
    } else if tag == 3 && data.len() == 21 {
        Ok(
            IdentityInstruction::UpdateEthereumAddress {
                new_ethereum_address: read_address(data, 1),
            },
        )
    } else {
        Err(IdentityError::InvalidInstructionData)
    }
}

/// The error the accounts of an instruction are refused with, if they are
/// refused: the signature is checked first, then the program that holds the
/// identity's account.
pub open spec fn spec_accounts_refusal(
    program_id: [u8; 32],
    account_program: [u8; 32],
    signer: Signer,
) -> Option<IdentityError> {
    if !signer.is_signer {
        Some(IdentityError::MissingRequiredSignature)
    } else if account_program@ != program_id@ {
        Some(IdentityError::IncorrectProgramId)
    } else {
        None
    }
}

/// The error an instruction is refused with, if it is refused: the accounts
/// are checked first, then, for an update, the owner.
pub open spec fn spec_refusal(
    program_id: [u8; 32],
    account_program: [u8; 32],
    signer: Signer,
    identity: IdentityAccount,
    instruction: IdentityInstruction,
) -> Option<IdentityError> {
    if spec_accounts_refusal(program_id, account_program, signer) is Some {
        spec_accounts_refusal(program_id, account_program, signer)
    } else if instruction.spec_owner_only() && identity.owner@ != signer.key@ {
        Some(IdentityError::InvalidAccountData)
    } else {
        None
    }
}

/// Whether `after` is the record that `instruction`, given by `signer`, makes
/// of `before`.
pub open spec fn spec_applied(
    before: IdentityAccount,
    signer: Signer,
    instruction: IdentityInstruction,
    after: IdentityAccount,
) -> bool {
    match instruction {
        IdentityInstruction::Initialize { ethereum_address, did } => {
            &&& after.owner == signer.key
            &&& after.ethereum_address == ethereum_address
            &&& after.did@ == did@
            &&& after.verification_data@ == Seq::<char>::empty()
            &&& !after.is_verified
        },
        IdentityInstruction::Verify { verification_data } => {
            &&& after.owner == before.owner
            &&& after.ethereum_address == before.ethereum_address
            &&& after.did@ == before.did@
            &&& after.verification_data@ == verification_data@
            &&& after.is_verified
        },
        IdentityInstruction::UpdateDid { new_did } => {
            &&& after.owner == before.owner
            &&& after.ethereum_address == before.ethereum_address
            &&& after.did@ == new_did@
            &&& after.verification_data@ == before.verification_data@
            &&& !after.is_verified
        },
        IdentityInstruction::UpdateEthereumAddress { new_ethereum_address } => {
            &&& after.owner == before.owner
            &&& after.ethereum_address == new_ethereum_address
            &&& after.did@ == before.did@
            &&& after.verification_data@ == before.verification_data@
            &&& !after.is_verified
        },
    }
}

/// Checks the accounts that come with an instruction: `signer` has to have
/// signed, and `account_program`, the program that holds the identity's
/// account, has to be `program_id`.
pub fn check_accounts(program_id: &[u8; 32], account_program: &[u8; 32], signer: &Signer) -> (r:
    Result<(), IdentityError>)
    ensures
        match r {
            Err(e) => spec_accounts_refusal(*program_id, *account_program, *signer) == Some(e),
            Ok(()) => spec_accounts_refusal(*program_id, *account_program, *signer) is None,
        },
{
    if !signer.is_signer {
        return Err(IdentityError::MissingRequiredSignature);
    }
    if !same_key(account_program, program_id) {
        return Err(IdentityError::IncorrectProgramId);
    }
    Ok(())
}

/// Applies one instruction to an identity record.
///
/// `account_program` is the program that holds the record's account; it has
/// to be `program_id`. `signer` has to have signed, and an update has to come
/// from the record's owner. A refused instruction leaves the record as it
/// was. An update takes the verification back.
pub fn process_instruction(
    program_id: &[u8; 32],
    account_program: &[u8; 32],
    signer: &Signer,
    identity: &mut IdentityAccount,
    instruction: IdentityInstruction,
) -> (r: Result<(), IdentityError>)
    ensures
        match r {
            Err(e) => {
                &&& spec_refusal(*program_id, *account_program, *signer, *old(identity), instruction)
                    == Some(e)
                &&& *final(identity) == *old(identity)
            },
            Ok(()) => {
                &&& spec_refusal(*program_id, *account_program, *signer, *old(identity), instruction)
                    is None
                &&& spec_applied(*old(identity), *signer, instruction, *final(identity))
            },
        },
{
    check_accounts(program_id, account_program, signer)?;
    match instruction {
        IdentityInstruction::Initialize { ethereum_address, did } => {
            identity.owner = signer.key;
            identity.ethereum_address = ethereum_address;
            identity.did = did;
            identity.verification_data = String::new();
            identity.is_verified = false;
            Ok(())
        },
        IdentityInstruction::Verify { verification_data } => {
            identity.verification_data = verification_data;
            identity.is_verified = true;
            Ok(())
        },
        IdentityInstruction::UpdateDid { new_did } => {
            if !same_key(&identity.owner, &signer.key) {
                return Err(IdentityError::InvalidAccountData);
            }
            identity.did = new_did;
            identity.is_verified = false;
            Ok(())
        },
        IdentityInstruction::UpdateEthereumAddress { new_ethereum_address } => {
            if !same_key(&identity.owner, &signer.key) {
                return Err(IdentityError::InvalidAccountData);
            }
            identity.ethereum_address = new_ethereum_address;
            identity.is_verified = false;
            Ok(())
        },
    }
}

} // verus!
