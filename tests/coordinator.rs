use borsh::BorshSerialize;
use ecom_pda::coordinator::{
    call_failure, decode_instruction, get_address_pda, get_user_profile_pda, process_instruction,
    AddressInstructionData, DelegatedCall, InstructionData, UserProfileInstructionData,
    ADDRESS_RECORD_LEN, PROFILE_RECORD_LEN,
};
use ecom_pda::address_program;
use ecom_pda::error::ProgramError;
use ecom_pda::layout::string_to_array;
use ecom_pda::pda::{derive_address, Label};
use solana_program::pubkey::Pubkey;

const PROGRAM: [u8; 32] = [7u8; 32];
const OWNER: [u8; 32] = [42u8; 32];
const ADDRESS_PROGRAM: [u8; 32] = [3u8; 32];
const PROFILE_PROGRAM: [u8; 32] = [4u8; 32];
const SYSTEM: [u8; 32] = [0u8; 32];

fn address_pda() -> ([u8; 32], u8) {
    get_address_pda(&OWNER, &PROGRAM).unwrap()
}

fn profile_pda() -> ([u8; 32], u8) {
    get_user_profile_pda(&OWNER, &PROGRAM).unwrap()
}

fn initialize_accounts() -> Vec<[u8; 32]> {
    vec![OWNER, profile_pda().0, address_pda().0, PROFILE_PROGRAM, ADDRESS_PROGRAM, SYSTEM]
}

#[test]
fn derivation_is_deterministic() {
    let a = derive_address(Label::Address, &OWNER, &PROGRAM).unwrap();
    let b = derive_address(Label::Address, &OWNER, &PROGRAM).unwrap();
    assert_eq!(a, b);
    let p = derive_address(Label::Profile, &OWNER, &PROGRAM).unwrap();
    assert_ne!(a.0, p.0);
}

#[test]
fn derivation_matches_platform_search() {
    let program = Pubkey::new_from_array(PROGRAM);
    let (k, bump) = Pubkey::find_program_address(&[b"address", &OWNER], &program);
    assert_eq!(address_pda(), (k.to_bytes(), bump));
    let (k, bump) = Pubkey::find_program_address(&[b"profile", &OWNER], &program);
    assert_eq!(profile_pda(), (k.to_bytes(), bump));
}

#[test]
fn label_seed_bytes() {
    assert_eq!(Label::Address.bytes(), b"address".to_vec());
    assert_eq!(Label::Profile.bytes(), b"profile".to_vec());
}

#[test]
fn user_info_round_trip_keeps_padding() {
    let name = string_to_array("Ada".to_string());
    let i = InstructionData::UpdateUserInfo { name, date: 9, month: -12, year: 1815 };
    let bytes = i.to_bytes();
    assert_eq!(bytes.len(), 525);
    match decode_instruction(&bytes).unwrap() {
        InstructionData::UpdateUserInfo { name: n, date, month, year } => {
            assert_eq!(n, name);
            assert!(n[3..].iter().all(|b| *b == 0));
            assert_eq!((date, month, year), (9, -12, 1815));
        }
        other => panic!("unexpected {:?}", other),
    }
}

#[test]
fn wire_form_matches_fixed_width_encoding() {
    let name = string_to_array("Grace".to_string());
    let ours = InstructionData::UpdateUserInfo { name, date: 1, month: 2, year: -3 }.to_bytes();
    let reference = (1u8, name, 1i32, 2i32, -3i32).try_to_vec().unwrap();
    assert_eq!(ours, reference);
    let address = string_to_array("123 Main St".to_string());
    let ours = InstructionData::UpdateAddress { address }.to_bytes();
    assert_eq!(ours, (0u8, address).try_to_vec().unwrap());
    assert_eq!(InstructionData::Initialize {}.to_bytes(), vec![2u8]);
}

#[test]
fn payload_layouts() {
    let address = string_to_array("123 Main St".to_string());
    assert_eq!(AddressInstructionData { address }.to_bytes(), address.to_vec());
    let p = UserProfileInstructionData { name: address, date: 1, month: 256, year: -1 };
    let b = p.to_bytes();
    assert_eq!(b.len(), 524);
    assert_eq!(&b[512..], &[1, 0, 0, 0, 0, 1, 0, 0, 255, 255, 255, 255]);
}

#[test]
fn decode_rejects_malformed() {
    assert_eq!(decode_instruction(&[]).unwrap_err(), ProgramError::InvalidInstructionData);
    assert_eq!(decode_instruction(&[3]).unwrap_err(), ProgramError::InvalidInstructionData);
    assert_eq!(decode_instruction(&[2, 0]).unwrap_err(), ProgramError::InvalidInstructionData);
    assert_eq!(decode_instruction(&[0; 512]).unwrap_err(), ProgramError::InvalidInstructionData);
    assert_eq!(decode_instruction(&[1; 513]).unwrap_err(), ProgramError::InvalidInstructionData);
    assert!(matches!(decode_instruction(&[2]), Ok(InstructionData::Initialize {})));
}

#[test]
fn initialize_creates_both_records() {
    let accounts = initialize_accounts();
    let calls = process_instruction(&PROGRAM, &accounts, &[2]).unwrap();
    assert_eq!(calls.len(), 2);
    match &calls[0] {
        DelegatedCall::CreateAccount { payer, target, space, owner, authority } => {
            assert_eq!(*payer, OWNER);
            assert_eq!(*target, address_pda().0);
            assert_eq!(*space, ADDRESS_RECORD_LEN);
            assert_eq!(*space, 512);
            assert_eq!(*owner, ADDRESS_PROGRAM);
            assert_eq!(authority.label, Label::Address);
            assert_eq!(authority.owner, OWNER);
            assert_eq!(authority.bump, address_pda().1);
        }
        other => panic!("unexpected {:?}", other),
    }
    match &calls[1] {
        DelegatedCall::CreateAccount { payer, target, space, owner, authority } => {
            assert_eq!(*payer, OWNER);
            assert_eq!(*target, profile_pda().0);
            assert_eq!(*space, PROFILE_RECORD_LEN);
            assert_eq!(*space, 524);
            assert_eq!(*owner, PROFILE_PROGRAM);
            assert_eq!(authority.label, Label::Profile);
            assert_eq!(authority.bump, profile_pda().1);
        }
        other => panic!("unexpected {:?}", other),
    }
}

#[test]
fn initialize_twice_targets_same_records() {
    let first = process_instruction(&PROGRAM, &initialize_accounts(), &[2]).unwrap();
    let second = process_instruction(&PROGRAM, &initialize_accounts(), &[2]).unwrap();
    for (a, b) in first.iter().zip(second.iter()) {
        match (a, b) {
            (
                DelegatedCall::CreateAccount { target: t1, .. },
                DelegatedCall::CreateAccount { target: t2, .. },
            ) => assert_eq!(t1, t2),
            _ => panic!("expected creations"),
        }
    }
    let already_in_use = ProgramError::Platform(0x0001_0000_0000);
    assert_eq!(call_failure(&second[0], already_in_use), already_in_use);
}

#[test]
fn initialize_rejects_tampered_records() {
    let mut accounts = initialize_accounts();
    accounts[2] = [9u8; 32];
    assert_eq!(
        process_instruction(&PROGRAM, &accounts, &[2]).unwrap_err(),
        ProgramError::InvalidInstructionData
    );
    let mut accounts = initialize_accounts();
    accounts[1] = address_pda().0;
    assert_eq!(
        process_instruction(&PROGRAM, &accounts, &[2]).unwrap_err(),
        ProgramError::InvalidInstructionData
    );
}

#[test]
fn initialize_needs_six_accounts() {
    let accounts = initialize_accounts();
    assert_eq!(
        process_instruction(&PROGRAM, &accounts[..5], &[2]).unwrap_err(),
        ProgramError::NotEnoughAccountKeys
    );
}

#[test]
fn malformed_instruction_is_rejected() {
    assert_eq!(
        process_instruction(&PROGRAM, &initialize_accounts(), &[7, 1]).unwrap_err(),
        ProgramError::InvalidInstructionData
    );
}

#[test]
fn update_user_info_forwards_profile() {
    let name = string_to_array("Ada".to_string());
    let data = InstructionData::UpdateUserInfo { name, date: 10, month: 12, year: 1815 }.to_bytes();
    let accounts = vec![OWNER, profile_pda().0, PROFILE_PROGRAM];
    let calls = process_instruction(&PROGRAM, &accounts, &data).unwrap();
    assert_eq!(calls.len(), 1);
    match &calls[0] {
        DelegatedCall::Invoke { program, target, data, authority } => {
            assert_eq!(*program, PROFILE_PROGRAM);
            assert_eq!(*target, profile_pda().0);
            let expected = UserProfileInstructionData { name, date: 10, month: 12, year: 1815 }.to_bytes();
            assert_eq!(*data, expected);
            assert_eq!(authority.label, Label::Profile);
            assert_eq!(authority.bump, profile_pda().1);
        }
        other => panic!("unexpected {:?}", other),
    }
    let tampered = vec![OWNER, address_pda().0, PROFILE_PROGRAM];
    assert_eq!(
        process_instruction(&PROGRAM, &tampered, &data).unwrap_err(),
        ProgramError::InvalidInstructionData
    );
}

#[test]
fn forwarded_rejection_is_incorrect_program_id() {
    let address = string_to_array("x".to_string());
    let data = InstructionData::UpdateAddress { address }.to_bytes();
    let calls = process_instruction(&PROGRAM, &[OWNER, address_pda().0, ADDRESS_PROGRAM], &data).unwrap();
    assert_eq!(
        call_failure(&calls[0], ProgramError::Platform(5)),
        ProgramError::IncorrectProgramId
    );
}

#[test]
fn owner_initializes_then_updates_address() {
    // Provisioning: both records at their derived addresses, with their owners.
    let calls = process_instruction(&PROGRAM, &initialize_accounts(), &[2]).unwrap();
    let mut record = address_program::AccountState {
        key: address_pda().0,
        owner: [0u8; 32],
        is_signer: false,
        data: Vec::new(),
    };
    match &calls[0] {
        DelegatedCall::CreateAccount { target, space, owner, .. } => {
            assert_eq!(*target, record.key);
            record.owner = *owner;
            record.data = vec![0u8; *space as usize];
        }
        other => panic!("unexpected {:?}", other),
    }
    assert_eq!(record.owner, ADDRESS_PROGRAM);

    // Update through the derived record: the address program stores the field.
    let address = string_to_array("123 Main St".to_string());
    let data = InstructionData::UpdateAddress { address }.to_bytes();
    let calls = process_instruction(&PROGRAM, &[OWNER, record.key, ADDRESS_PROGRAM], &data).unwrap();
    match &calls[0] {
        DelegatedCall::Invoke { program, target, data, .. } => {
            assert_eq!(*program, ADDRESS_PROGRAM);
            assert_eq!(*target, record.key);
            record.is_signer = true;
            let updated =
                address_program::process_instruction(&ADDRESS_PROGRAM, &[record.clone()], data).unwrap();
            record.data = updated.address.to_vec();
        }
        other => panic!("unexpected {:?}", other),
    }
    let mut expected = b"123 Main St".to_vec();
    expected.resize(512, 0);
    assert_eq!(record.data, expected);

    // A record account that is not the derived one is refused, with no call.
    let before = record.data.clone();
    let other = string_to_array("1 Elm St".to_string());
    let data = InstructionData::UpdateAddress { address: other }.to_bytes();
    assert_eq!(
        process_instruction(&PROGRAM, &[OWNER, [5u8; 32], ADDRESS_PROGRAM], &data).unwrap_err(),
        ProgramError::InvalidInstructionData
    );
    assert_eq!(record.data, before);
}
