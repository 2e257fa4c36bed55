use vstd::prelude::*;
use crate::address_program::keys_equal;
use crate::error::ProgramError;
use crate::layout::{le_bytes, from_le, lemma_le_canonical, lemma_le_round_trip, push_field, push_le, read_field, read_le, FIELD_LEN};
use crate::pda::{derive_address, derive_spec, AuthorityProof, Label};

verus! {

/// Stored width of an address record: one fixed field.
pub const ADDRESS_RECORD_LEN: u64 = 512;

/// Stored width of a profile record: one fixed field and three 32-bit integers.
pub const PROFILE_RECORD_LEN: u64 = 524;

/// The coordinating program's instructions.
#[derive(Clone, Copy, Debug)]
pub enum InstructionData {
    UpdateAddress { address: [u8; 512] },
    UpdateUserInfo { name: [u8; 512], date: i32, month: i32, year: i32 },
    Initialize {},
}

/// The payload forwarded to the address program.
#[derive(Clone, Copy, Debug)]
pub struct AddressInstructionData {
    pub address: [u8; 512],
}

/// The payload forwarded to the profile program.
#[derive(Clone, Copy, Debug)]
pub struct UserProfileInstructionData {
    pub name: [u8; 512],
    pub date: i32,
    pub month: i32,
    pub year: i32,
}

/// The address record as stored by the address program.
#[derive(Clone, Copy, Debug)]
pub struct AddressSchema {
    pub address: [u8; 512],
}

/// Serialized profile fields: the name field, then date, month and year,
/// each little-endian.
pub open spec fn profile_bytes(name: [u8; 512], date: i32, month: i32, year: i32) -> Seq<u8> {
    name@ + le_bytes(date) + le_bytes(month) + le_bytes(year)
}

/// Wire form of an instruction: a tag byte, then the variant's fields.
pub open spec fn encode_spec(i: InstructionData) -> Seq<u8> {
    match i {
        InstructionData::UpdateAddress { address } => seq![0u8] + address@,
        InstructionData::UpdateUserInfo { name, date, month, year } => seq![1u8] + profile_bytes(
            name,
            date,
            month,
            year,
        ),
        InstructionData::Initialize {} => seq![2u8],
    }
}

/// Byte strings that have the shape of some instruction's wire form.
pub open spec fn well_formed(b: Seq<u8>) -> bool {
    b.len() > 0 && ((b[0] == 0u8 && b.len() == 1 + FIELD_LEN) || (b[0] == 1u8 && b.len() == 1
        + FIELD_LEN + 12) || (b[0] == 2u8 && b.len() == 1))
}

/// What decoding `b` may return: the instruction whose wire form is `b`,
/// or `InvalidInstructionData` where no instruction has that wire form.
pub open spec fn decoded(b: Seq<u8>, r: Result<InstructionData, ProgramError>) -> bool {
    match r {
        Ok(i) => encode_spec(i) == b,
        Err(e) => e == ProgramError::InvalidInstructionData && !well_formed(b) && forall|
            i: InstructionData,
        | #[trigger] encode_spec(i) != b,
    }
}

proof fn lemma_encode_well_formed(i: InstructionData)
    ensures
        well_formed(encode_spec(i)),
{
}

proof fn lemma_le_injective(x: i32, y: i32)
    requires
        le_bytes(x) == le_bytes(y),
    ensures
        x == y,
{
    lemma_le_round_trip(x);
    lemma_le_round_trip(y);
}

proof fn lemma_encode_injective(i: InstructionData, j: InstructionData)
    requires
        encode_spec(i) == encode_spec(j),
    ensures
        i == j,
{
    let b = encode_spec(i);
    assert(b[0] == encode_spec(j)[0]);
    match i {
        InstructionData::UpdateAddress { address: a } => {
            if let InstructionData::UpdateAddress { address: a2 } = j {
                assert(a@ =~= b.subrange(1, 513));
                assert(a2@ =~= b.subrange(1, 513));
                assert(a =~= a2);
            }
        },
        InstructionData::UpdateUserInfo { name, date, month, year } => {
            if let InstructionData::UpdateUserInfo { name: n2, date: d2, month: m2, year: y2 } = j {
                assert(name@ =~= b.subrange(1, 513));
                assert(n2@ =~= b.subrange(1, 513));
                assert(name =~= n2);
                assert(le_bytes(date) =~= b.subrange(513, 517));
                assert(le_bytes(d2) =~= b.subrange(513, 517));
                assert(le_bytes(month) =~= b.subrange(517, 521));
                assert(le_bytes(m2) =~= b.subrange(517, 521));
                assert(le_bytes(year) =~= b.subrange(521, 525));
                assert(le_bytes(y2) =~= b.subrange(521, 525));
                lemma_le_injective(date, d2);
                lemma_le_injective(month, m2);
                lemma_le_injective(year, y2);
            }
        },
        InstructionData::Initialize {} => {},
    }
}

/// Decoding the wire form of an instruction gives back that instruction,
/// field for field, the zero padding of its text fields included.
pub proof fn lemma_instruction_round_trip(i: InstructionData, r: Result<InstructionData, ProgramError>)
    requires
        decoded(encode_spec(i), r),
    ensures
        r == Ok::<InstructionData, ProgramError>(i),
{
    lemma_encode_well_formed(i);
    if let Ok(j) = r {
        lemma_encode_injective(i, j);
    }
}

/// Decodes an instruction; the whole input must be consumed.
pub fn decode_instruction(data: &[u8]) -> (r: Result<InstructionData, ProgramError>)
    ensures
        decoded(data@, r),
        r is Ok <==> well_formed(data@),
{
    let n: usize = data.len();
    if n == 1 + FIELD_LEN && data[0] == 0u8 {
        let address = read_field(data, 1);
        assert(encode_spec(InstructionData::UpdateAddress { address }) =~= data@);
        Ok(InstructionData::UpdateAddress { address })
    } else if n == 1 + FIELD_LEN + 12 && data[0] == 1u8 {
        let name = read_field(data, 1);
        let date = read_le(data, 513);
        let month = read_le(data, 517);
        let year = read_le(data, 521);
        proof {
            lemma_le_canonical(data@[513], data@[514], data@[515], data@[516]);
            lemma_le_canonical(data@[517], data@[518], data@[519], data@[520]);
            lemma_le_canonical(data@[521], data@[522], data@[523], data@[524]);
        }
        let i = InstructionData::UpdateUserInfo { name, date, month, year };
        assert(encode_spec(i) =~= data@);
        Ok(i)
    } else if n == 1 && data[0] == 2u8 {
        assert(encode_spec(InstructionData::Initialize {}) =~= data@);
        Ok(InstructionData::Initialize {})
    } else {
        assert forall|i: InstructionData| #[trigger] encode_spec(i) != data@ by {
            lemma_encode_well_formed(i);
        }
        Err(ProgramError::InvalidInstructionData)
    }
}

impl InstructionData {
    /// The wire form of this instruction.
    pub fn to_bytes(&self) -> (r: Vec<u8>)
        ensures
            r@ == encode_spec(*self),
    {
        let mut out: Vec<u8> = Vec::new();
        match self {
            InstructionData::UpdateAddress { address } => {
                out.push(0u8);
                push_field(&mut out, address);
            },
            InstructionData::UpdateUserInfo { name, date, month, year } => {
                out.push(1u8);
                push_field(&mut out, name);
                push_le(&mut out, *date);
                push_le(&mut out, *month);
                push_le(&mut out, *year);
            },
            InstructionData::Initialize {} => {
                out.push(2u8);
            },
        }
        assert(out@ =~= encode_spec(*self));
        out
    }
}

impl AddressInstructionData {
    /// The payload as the address program reads it: the address field alone.
    pub fn to_bytes(&self) -> (r: Vec<u8>)
        ensures
            r@ == self.address@,
    {
        let mut out: Vec<u8> = Vec::new();
        push_field(&mut out, &self.address);
        assert(out@ =~= self.address@);
        out
    }
}

impl UserProfileInstructionData {
    /// The payload as the profile program reads it.
    pub fn to_bytes(&self) -> (r: Vec<u8>)
        ensures
            r@ == profile_bytes(self.name, self.date, self.month, self.year),
    {
        let mut out: Vec<u8> = Vec::new();
        push_field(&mut out, &self.name);
        push_le(&mut out, self.date);
        push_le(&mut out, self.month);
        push_le(&mut out, self.year);
        assert(out@ =~= profile_bytes(self.name, self.date, self.month, self.year));
        out
    }
}

/// A delegated call that the coordinating program asks the platform to make,
/// authorized by the seed material of the target's derived address.
#[derive(Clone, Debug)]
pub enum DelegatedCall {
    /// Create a zero-initialized account at `target`, funded by `payer` to the
    /// rent-exempt minimum for `space` bytes, and owned by `owner`.
    CreateAccount { payer: [u8; 32], target: [u8; 32], space: u64, owner: [u8; 32], authority: AuthorityProof },
    /// Call `program` with `data`, passing `target` as its one account,
    /// marked signer and writable.
    Invoke { program: [u8; 32], target: [u8; 32], data: Vec<u8>, authority: AuthorityProof },
}

/// A delegated call, with identities and payload as byte sequences.
pub ghost enum CallView {
    CreateAccount { payer: Seq<u8>, target: Seq<u8>, space: u64, owner: Seq<u8>, authority: AuthorityProof },
    Invoke { program: Seq<u8>, target: Seq<u8>, data: Seq<u8>, authority: AuthorityProof },
}

impl View for DelegatedCall {
    type V = CallView;

    open spec fn view(&self) -> CallView {
        match self {
            DelegatedCall::CreateAccount { payer, target, space, owner, authority } => CallView::CreateAccount {
                payer: payer@,
                target: target@,
                space: *space,
                owner: owner@,
                authority: *authority,
            },
            DelegatedCall::Invoke { program, target, data, authority } => CallView::Invoke {
                program: program@,
                target: target@,
                data: data@,
                authority: *authority,
            },
        }
    }
}

/// The seed material for `label` and `owner` with the given bump byte.
pub open spec fn proof_of(label: Label, owner: [u8; 32], bump: u8) -> AuthorityProof {
    AuthorityProof { label, owner, bump }
}

/// Checks a declared record account against the address re-derived from
/// `label` and `owner`: on a match the result is the proof of authority over it.
pub open spec fn validate_spec(label: Label, owner: [u8; 32], declared: [u8; 32], program: [u8; 32]) -> Result<AuthorityProof, ProgramError> {
    match derive_spec(label, owner, program) {
        None => Err(ProgramError::InvalidSeeds),
        Some(d) => if d.0 == declared@ {
            Ok(proof_of(label, owner, d.1))
        } else {
            Err(ProgramError::InvalidInstructionData)
        },
    }
}

/// How many accounts each instruction reads.
pub open spec fn accounts_needed(i: InstructionData) -> nat {
    match i {
        InstructionData::Initialize {} => 6,
        _ => 3,
    }
}

/// The delegated calls that instruction `i` asks for, given the declared
/// accounts `keys` in order, or the error that stops it before any call.
pub open spec fn plan_spec(program: [u8; 32], keys: Seq<[u8; 32]>, i: InstructionData) -> Result<Seq<CallView>, ProgramError> {
    if keys.len() < accounts_needed(i) {
        Err(ProgramError::NotEnoughAccountKeys)
    } else {
        match i {
            InstructionData::Initialize {} => match validate_spec(Label::Address, keys[0], keys[2], program) {
                Err(e) => Err(e),
                Ok(ap) => match validate_spec(Label::Profile, keys[0], keys[1], program) {
                    Err(e) => Err(e),
                    Ok(pp) => Ok(seq![
                        CallView::CreateAccount {
                            payer: keys[0]@,
                            target: keys[2]@,
                            space: ADDRESS_RECORD_LEN,
                            owner: keys[4]@,
                            authority: ap,
                        },
                        CallView::CreateAccount {
                            payer: keys[0]@,
                            target: keys[1]@,
                            space: PROFILE_RECORD_LEN,
                            owner: keys[3]@,
                            authority: pp,
                        },
                    ]),
                },
            },
            InstructionData::UpdateAddress { address } => match validate_spec(Label::Address, keys[0], keys[1], program) {
                Err(e) => Err(e),
                Ok(ap) => Ok(seq![
                    CallView::Invoke { program: keys[2]@, target: keys[1]@, data: address@, authority: ap },
                ]),
            },
            InstructionData::UpdateUserInfo { name, date, month, year } => match validate_spec(Label::Profile, keys[0], keys[1], program) {
                Err(e) => Err(e),
                Ok(pp) => Ok(seq![
                    CallView::Invoke {
                        program: keys[2]@,
                        target: keys[1]@,
                        data: profile_bytes(name, date, month, year),
                        authority: pp,
                    },
                ]),
            },
        }
    }
}

/// `r` is what `p` describes: the same calls, or the same error.
pub open spec fn follows_plan(r: Result<Vec<DelegatedCall>, ProgramError>, p: Result<Seq<CallView>, ProgramError>) -> bool {
    match r {
        Ok(calls) => p == Ok::<Seq<CallView>, ProgramError>(calls@.map_values(|c: DelegatedCall| c@)),
        Err(e) => p == Err::<Seq<CallView>, ProgramError>(e),
    }
}

/// Re-derives the record address for `label` and `owner` and checks the
/// declared record account against it.
pub fn validate_record(label: Label, owner: &[u8; 32], declared: &[u8; 32], program_id: &[u8; 32]) -> (r: Result<AuthorityProof, ProgramError>)
    ensures
        r == validate_spec(label, *owner, *declared, *program_id),
{
    match derive_address(label, owner, program_id) {
        None => Err(ProgramError::InvalidSeeds),
        Some(d) => {
            if keys_equal(&d.0, declared) {
                Ok(AuthorityProof { label, owner: *owner, bump: d.1 })
            } else {
                Err(ProgramError::InvalidInstructionData)
            }
        },
    }
}

/// The address record's derived address and bump byte for `account`.
pub fn get_address_pda(account: &[u8; 32], program_id: &[u8; 32]) -> (r: Option<([u8; 32], u8)>)
    ensures
        match r {
            Some(p) => derive_spec(Label::Address, *account, *program_id) == Some((p.0@, p.1)),
            None => derive_spec(Label::Address, *account, *program_id) is None,
        },
{
    derive_address(Label::Address, account, program_id)
}

/// The profile record's derived address and bump byte for `account`.
pub fn get_user_profile_pda(account: &[u8; 32], program_id: &[u8; 32]) -> (r: Option<([u8; 32], u8)>)
    ensures
        match r {
            Some(p) => derive_spec(Label::Profile, *account, *program_id) == Some((p.0@, p.1)),
            None => derive_spec(Label::Profile, *account, *program_id) is None,
        },
{
    derive_address(Label::Profile, account, program_id)
}

/// Handles one instruction of the coordinating program. `accounts` are the
/// identities of the declared accounts, in order:
/// `Initialize`: owner, profile record, address record, profile program,
/// address program, system facility;
/// `UpdateAddress`: owner, address record, address program;
/// `UpdateUserInfo`: owner, profile record, profile program.
/// On success the result lists the delegated calls to make, in order; every
/// check precedes them all, so an error means that no call is made.
pub fn process_instruction(program_id: &[u8; 32], accounts: &[[u8; 32]], instruction_data: &[u8]) -> (r: Result<Vec<DelegatedCall>, ProgramError>)
    ensures
        !well_formed(instruction_data@) ==> r == Err::<Vec<DelegatedCall>, ProgramError>(ProgramError::InvalidInstructionData),
        well_formed(instruction_data@) ==> exists|i: InstructionData| #[trigger] encode_spec(i) == instruction_data@,
        forall|i: InstructionData| #[trigger] encode_spec(i) == instruction_data@ ==> follows_plan(r, plan_spec(*program_id, accounts@, i)),
{
    let instruction = decode_instruction(instruction_data);
    let instruction = match instruction {
        Ok(i) => i,
        Err(e) => return Err(e),
    };
    proof {
        assert forall|i: InstructionData| #[trigger] encode_spec(i) == instruction_data@ implies i == instruction by {
            lemma_encode_injective(i, instruction);
        }
    }
    let r = plan(program_id, accounts, instruction);
    r
}

fn plan(program_id: &[u8; 32], accounts: &[[u8; 32]], instruction: InstructionData) -> (r: Result<Vec<DelegatedCall>, ProgramError>)
    ensures
        follows_plan(r, plan_spec(*program_id, accounts@, instruction)),
{
    match instruction {
        InstructionData::Initialize {} => {
            if accounts.len() < 6 {
                return Err(ProgramError::NotEnoughAccountKeys);
            }
            let ap = match validate_record(Label::Address, &accounts[0], &accounts[2], program_id) {
                Ok(p) => p,
                Err(e) => return Err(e),
            };
            let pp = match validate_record(Label::Profile, &accounts[0], &accounts[1], program_id) {
                Ok(p) => p,
                Err(e) => return Err(e),
            };
            let mut calls: Vec<DelegatedCall> = Vec::new();
            calls.push(DelegatedCall::CreateAccount {
                payer: accounts[0],
                target: accounts[2],
                space: ADDRESS_RECORD_LEN,
                owner: accounts[4],
                authority: ap,
            });
            calls.push(DelegatedCall::CreateAccount {
                payer: accounts[0],
                target: accounts[1],
                space: PROFILE_RECORD_LEN,
                owner: accounts[3],
                authority: pp,
            });
            assert(calls@.map_values(|c: DelegatedCall| c@) =~= plan_spec(*program_id, accounts@, instruction)->Ok_0);
            Ok(calls)
        },
        InstructionData::UpdateAddress { address } => {
            if accounts.len() < 3 {
                return Err(ProgramError::NotEnoughAccountKeys);
            }
            let ap = match validate_record(Label::Address, &accounts[0], &accounts[1], program_id) {
                Ok(p) => p,
                Err(e) => return Err(e),
            };
            let payload = AddressInstructionData { address };
            let mut calls: Vec<DelegatedCall> = Vec::new();
            calls.push(DelegatedCall::Invoke {
                program: accounts[2],
                target: accounts[1],
                data: payload.to_bytes(),
                authority: ap,
            });
            assert(calls@.map_values(|c: DelegatedCall| c@) =~= plan_spec(*program_id, accounts@, instruction)->Ok_0);
            Ok(calls)
        },
        InstructionData::UpdateUserInfo { name, date, month, year } => {
            if accounts.len() < 3 {
                return Err(ProgramError::NotEnoughAccountKeys);
            }
            let pp = match validate_record(Label::Profile, &accounts[0], &accounts[1], program_id) {
                Ok(p) => p,
                Err(e) => return Err(e),
            };
            let payload = UserProfileInstructionData { name, date, month, year };
            let mut calls: Vec<DelegatedCall> = Vec::new();
            calls.push(DelegatedCall::Invoke {
                program: accounts[2],
                target: accounts[1],
                data: payload.to_bytes(),
                authority: pp,
            });
            assert(calls@.map_values(|c: DelegatedCall| c@) =~= plan_spec(*program_id, accounts@, instruction)->Ok_0);
            Ok(calls)
        },
    }
}

/// The error that the instruction reports when the platform rejects `call`
/// with `platform`: a failed creation passes on unchanged, a rejected
/// forwarded call becomes `IncorrectProgramId`.
pub fn call_failure(call: &DelegatedCall, platform: ProgramError) -> (r: ProgramError)
    ensures
        r == call_failure_spec(*call, platform),
        call is CreateAccount ==> r == platform,
        call is Invoke ==> r == ProgramError::IncorrectProgramId,
{
    match call {
        DelegatedCall::CreateAccount { .. } => platform,
        DelegatedCall::Invoke { .. } => ProgramError::IncorrectProgramId,
    }
}

/// Whether instruction `i` checks a record of kind `label`, and at which
/// position of the declared accounts that record stands.
pub open spec fn record_slot(i: InstructionData, label: Label) -> Option<nat> {
    match (i, label) {
        (InstructionData::Initialize {}, Label::Address) => Some(2),
        (InstructionData::Initialize {}, Label::Profile) => Some(1),
        (InstructionData::UpdateAddress { .. }, Label::Address) => Some(1),
        (InstructionData::UpdateUserInfo { .. }, Label::Profile) => Some(1),
        _ => None,
    }
}

/// Tamper rejection: where an instruction checks a record whose declared
/// address differs from the one re-derived from the owner, the instruction
/// fails with `InvalidInstructionData` and asks for no delegated call.
pub proof fn lemma_tamper_rejected(program: [u8; 32], keys: Seq<[u8; 32]>, i: InstructionData, label: Label)
    requires
        keys.len() >= accounts_needed(i),
        record_slot(i, label) is Some,
        derive_spec(Label::Address, keys[0], program) is Some,
        derive_spec(Label::Profile, keys[0], program) is Some,
        derive_spec(label, keys[0], program)->Some_0.0 != keys[record_slot(i, label)->Some_0 as int]@,
    ensures
        plan_spec(program, keys, i) == Err::<Seq<CallView>, ProgramError>(ProgramError::InvalidInstructionData),
{
}

/// Provisioning is all or nothing on the coordinator's side: `Initialize`
/// either fails before any call, or asks for exactly the two creations, of
/// the address record and then of the profile record, each at its derived
/// address, with its fixed width and its owning program; and a failed
/// creation fails the instruction with the platform's own error.
pub proof fn lemma_provisioning_all_or_nothing(program: [u8; 32], keys: Seq<[u8; 32]>, call: DelegatedCall, platform: ProgramError)
    ensures
        plan_spec(program, keys, InstructionData::Initialize {}) is Ok ==> {
            let calls = plan_spec(program, keys, InstructionData::Initialize {})->Ok_0;
            &&& calls.len() == 2
            &&& calls[0] == CallView::CreateAccount {
                payer: keys[0]@,
                target: derive_spec(Label::Address, keys[0], program)->Some_0.0,
                space: ADDRESS_RECORD_LEN,
                owner: keys[4]@,
                authority: proof_of(Label::Address, keys[0], derive_spec(Label::Address, keys[0], program)->Some_0.1),
            }
            &&& calls[1] == CallView::CreateAccount {
                payer: keys[0]@,
                target: derive_spec(Label::Profile, keys[0], program)->Some_0.0,
                space: PROFILE_RECORD_LEN,
                owner: keys[3]@,
                authority: proof_of(Label::Profile, keys[0], derive_spec(Label::Profile, keys[0], program)->Some_0.1),
            }
        },
        call is CreateAccount ==> call_failure_spec(call, platform) == platform,
{
}

/// The error reported for a rejected delegated call.
pub open spec fn call_failure_spec(call: DelegatedCall, platform: ProgramError) -> ProgramError {
    match call {
        DelegatedCall::CreateAccount { .. } => platform,
        DelegatedCall::Invoke { .. } => ProgramError::IncorrectProgramId,
    }
}

/// Two `Initialize` instructions from the same owner ask to create the
/// same two record addresses, whatever else was declared; so the second
/// meets accounts that already exist, and the platform's refusal is what the
/// instruction reports.
pub proof fn lemma_reprovisioning_same_targets(program: [u8; 32], keys1: Seq<[u8; 32]>, keys2: Seq<[u8; 32]>)
    requires
        keys1.len() >= 1,
        keys2.len() >= 1,
        keys1[0] == keys2[0],
        plan_spec(program, keys1, InstructionData::Initialize {}) is Ok,
        plan_spec(program, keys2, InstructionData::Initialize {}) is Ok,
    ensures
        ({
            let c1 = plan_spec(program, keys1, InstructionData::Initialize {})->Ok_0;
            let c2 = plan_spec(program, keys2, InstructionData::Initialize {})->Ok_0;
            &&& c1[0]->CreateAccount_target == c2[0]->CreateAccount_target
            &&& c1[1]->CreateAccount_target == c2[1]->CreateAccount_target
            &&& c1[0]->CreateAccount_authority == c2[0]->CreateAccount_authority
            &&& c1[1]->CreateAccount_authority == c2[1]->CreateAccount_authority
        }),
{
}

} // verus!
