use vstd::prelude::*;
use crate::error::ProgramError;
use crate::layout::{read_field, FIELD_LEN};

verus! {

/// The address program's only instruction: the new address text.
#[derive(Clone, Copy, Debug)]
pub struct InstructionData {
    pub address: [u8; 512],
}

/// The address record as stored: one fixed address field.
#[derive(Clone, Copy, Debug)]
pub struct AddressSchema {
    pub address: [u8; 512],
}

/// What the address program reads of a declared account.
#[derive(Clone, Debug)]
pub struct AccountState {
    pub key: [u8; 32],
    pub owner: [u8; 32],
    pub is_signer: bool,
    pub data: Vec<u8>,
}

/// The outcome of an address update: `Ok` holds the record's new bytes.
pub open spec fn update_spec(program: [u8; 32], accounts: Seq<AccountState>, data: Seq<u8>) -> Result<Seq<u8>, ProgramError> {
    if data.len() != FIELD_LEN {
        Err(ProgramError::InvalidInstructionData)
    } else if accounts.len() == 0 {
        Err(ProgramError::NotEnoughAccountKeys)
    } else if accounts[0].owner@ != program@ {
        Err(ProgramError::IncorrectProgramId)
    } else if !accounts[0].is_signer {
        Err(ProgramError::IncorrectProgramId)
    } else if accounts[0].data@.len() != FIELD_LEN {
        Err(ProgramError::BorshIoError)
    } else {
        Ok(data)
    }
}

/// Compares two account identities byte by byte.
pub fn keys_equal(a: &[u8; 32], b: &[u8; 32]) -> (r: bool)
    ensures
        r == (a@ == b@),
{
    let mut i: usize = 0;
    while i < 32
        invariant
            i <= 32,
            a@.len() == 32,
            b@.len() == 32,
            forall|j: int| 0 <= j < i ==> a@[j] == b@[j],
        decreases 32 - i,
    {
        if a[i] != b[i] {
            return false;
        }
        i = i + 1;
    }
    assert(a@ =~= b@);
    true
}

/// Decodes the address instruction: exactly one fixed field.
pub fn decode_instruction(data: &[u8]) -> (r: Result<InstructionData, ProgramError>)
    ensures
        match r {
            Ok(i) => data@.len() == FIELD_LEN && i.address@ == data@,
            Err(e) => data@.len() != FIELD_LEN && e == ProgramError::InvalidInstructionData,
        },
{
    if data.len() != FIELD_LEN {
        return Err(ProgramError::InvalidInstructionData);
    }
    let address = read_field(data, 0);
    assert(data@.subrange(0, FIELD_LEN as int) =~= data@);
    Ok(InstructionData { address })
}

/// Applies an address update to the first declared account: the account
/// must be owned by `program_id` and signed for, and its stored record must
/// have the record's fixed width. On success the result is the record that
/// replaces the stored one.
pub fn process_instruction(program_id: &[u8; 32], accounts: &[AccountState], instruction_data: &[u8]) -> (r: Result<AddressSchema, ProgramError>)
    ensures
        match r {
            Ok(rec) => update_spec(*program_id, accounts@, instruction_data@) == Ok::<Seq<u8>, ProgramError>(rec.address@),
            Err(e) => update_spec(*program_id, accounts@, instruction_data@) == Err::<Seq<u8>, ProgramError>(e),
        },
{
    let instruction = match decode_instruction(instruction_data) {
        Ok(i) => i,
        Err(e) => return Err(e),
    };
    if accounts.len() == 0 {
        return Err(ProgramError::NotEnoughAccountKeys);
    }
    let pda_account = &accounts[0];
    if !keys_equal(&pda_account.owner, program_id) {
        return Err(ProgramError::IncorrectProgramId);
    }
    if !pda_account.is_signer {
        return Err(ProgramError::IncorrectProgramId);
    }
    if pda_account.data.len() != FIELD_LEN {
        return Err(ProgramError::BorshIoError);
    }
    Ok(AddressSchema { address: instruction.address })
}

} // verus!
