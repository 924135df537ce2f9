use escrow::error::{EscrowError, ProcessError};
use escrow::instruction::EscrowInstruction;
use escrow::processor::{Account, Processor};
use escrow::pubkey::Pubkey;
use escrow::state::Escrow;
use solana_program::pubkey::Pubkey as SdkPubkey;

fn key(b: u8) -> Pubkey {
    Pubkey::new_from_array([b; 32])
}

fn token_key() -> Pubkey {
    Pubkey::new_from_array(spl_token::id().to_bytes())
}

fn program_key() -> Pubkey {
    key(200)
}

fn account(k: Pubkey, owner: Pubkey, is_signer: bool, lamports: u64, data: Vec<u8>) -> Account {
    Account { key: k, owner, is_signer, lamports, data }
}

fn init_accounts() -> Vec<Account> {
    vec![
        account(key(1), key(9), true, 10, vec![]),
        account(key(2), token_key(), false, 10, vec![]),
        account(key(3), token_key(), false, 10, vec![]),
        account(key(4), program_key(), false, 5_000, vec![0u8; 105]),
        account(key(5), key(9), false, 1, vec![]),
        account(token_key(), key(9), false, 1, vec![]),
    ]
}

fn sample_record() -> Escrow {
    Escrow {
        is_initialized: true,
        initializer_pubkey: key(1),
        temp_token_account_pubkey: key(2),
        initializer_token_to_receive_account_pubkey: key(3),
        expected_amount: 0x0102_0304_0506_0708,
    }
}

#[test]
fn record_round_trip() {
    let r = sample_record();
    let mut buf = vec![0xAAu8; 105];
    assert_eq!(Escrow::pack(r, &mut buf), Ok(()));
    assert_eq!(Escrow::unpack_unchecked(&buf), Ok(r));
    let z = Escrow {
        is_initialized: false,
        initializer_pubkey: key(0),
        temp_token_account_pubkey: key(255),
        initializer_token_to_receive_account_pubkey: key(7),
        expected_amount: u64::MAX,
    };
    assert_eq!(Escrow::pack(z, &mut buf), Ok(()));
    assert_eq!(Escrow::unpack_unchecked(&buf), Ok(z));
}

#[test]
fn record_layout_is_fixed() {
    let r = sample_record();
    let mut buf = vec![0u8; 110];
    r.pack_into_slice(&mut buf);
    assert_eq!(buf[0], 1);
    assert_eq!(&buf[1..33], &[1u8; 32][..]);
    assert_eq!(&buf[33..65], &[2u8; 32][..]);
    assert_eq!(&buf[65..97], &[3u8; 32][..]);
    assert_eq!(&buf[97..105], &[8u8, 7, 6, 5, 4, 3, 2, 1][..]);
    assert_eq!(&buf[105..], &[0u8; 5][..]);
    assert_eq!(Escrow::LEN, 105);
}

#[test]
fn flag_byte_zero_and_one() {
    let mut buf = vec![0u8; 105];
    let e = Escrow::unpack_from_slice(&buf).unwrap();
    assert!(!e.is_initialized());
    buf[0] = 1;
    let e = Escrow::unpack_from_slice(&buf).unwrap();
    assert!(e.is_initialized());
}

#[test]
fn flag_byte_other_fails() {
    let mut buf = vec![0u8; 105];
    buf[0] = 2;
    assert_eq!(Escrow::unpack_from_slice(&buf), Err(ProcessError::InvalidAccountData));
    buf[0] = 255;
    assert_eq!(Escrow::unpack_from_slice(&buf), Err(ProcessError::InvalidAccountData));
}

#[test]
fn wrong_buffer_length_fails() {
    assert_eq!(Escrow::unpack_unchecked(&[0u8; 104]), Err(ProcessError::InvalidAccountData));
    assert_eq!(Escrow::unpack_unchecked(&[0u8; 106]), Err(ProcessError::InvalidAccountData));
    let mut buf = vec![9u8; 106];
    assert_eq!(Escrow::pack(sample_record(), &mut buf), Err(ProcessError::InvalidAccountData));
    assert_eq!(buf, vec![9u8; 106]);
}

#[test]
fn instruction_decodes_amount() {
    let data = [0u8, 0x40, 0x42, 0x0F, 0, 0, 0, 0, 0];
    assert_eq!(EscrowInstruction::unpack(&data), Ok(EscrowInstruction::InitEscrow { amount: 1_000_000 }));
    let data = [0u8, 0xFF, 0xFF, 0xFF, 0xFF, 0xFF, 0xFF, 0xFF, 0xFF];
    assert_eq!(EscrowInstruction::unpack(&data), Ok(EscrowInstruction::InitEscrow { amount: u64::MAX }));
}

#[test]
fn instruction_wrong_length_fails() {
    let bad = Err(EscrowError::InvalidInstruction);
    assert_eq!(EscrowInstruction::unpack(&[0u8, 1, 2, 3, 4, 5, 6, 7]), bad);
    assert_eq!(EscrowInstruction::unpack(&[0u8, 1, 2, 3, 4, 5, 6, 7, 8, 9]), bad);
    assert_eq!(EscrowInstruction::unpack(&[0u8]), bad);
}

#[test]
fn instruction_empty_or_other_tag_fails() {
    let bad = Err(EscrowError::InvalidInstruction);
    assert_eq!(EscrowInstruction::unpack(&[]), bad);
    assert_eq!(EscrowInstruction::unpack(&[1u8, 0, 0, 0, 0, 0, 0, 0, 0]), bad);
    assert_eq!(EscrowInstruction::unpack(&[255u8, 0, 0, 0, 0, 0, 0, 0, 0]), bad);
}

#[test]
fn error_codes() {
    assert_eq!(EscrowError::InvalidInstruction.code(), 0);
    assert_eq!(EscrowError::NotRentExempt.code(), 1);
    assert_eq!(EscrowError::InvalidInstruction.message(), "Invalid Instruction");
    assert_eq!(EscrowError::NotRentExempt.message(), "Not rent exempt");
}

#[test]
fn initializer_must_sign() {
    let mut accounts = init_accounts();
    accounts[0].is_signer = false;
    let before = accounts.clone();
    let r = Processor::process_init_escrow(&mut accounts, 1_000_000, &program_key(), Some(1_000));
    assert_eq!(r, Err(ProcessError::MissingRequiredSignature));
    assert_eq!(accounts, before);
}

#[test]
fn storage_below_rent_minimum_fails() {
    let mut accounts = init_accounts();
    let before = accounts.clone();
    let r = Processor::process_init_escrow(&mut accounts, 1_000_000, &program_key(), Some(5_001));
    assert_eq!(r, Err(ProcessError::Custom(EscrowError::NotRentExempt)));
    assert_eq!(accounts, before);
    let r = Processor::process_init_escrow(&mut accounts, 1_000_000, &program_key(), Some(5_000));
    assert!(r.is_ok());
}

#[test]
fn initialization_succeeds() {
    let mut accounts = init_accounts();
    let r = Processor::process_init_escrow(&mut accounts, 1_000_000, &program_key(), Some(1_000));
    let ix = r.unwrap();
    let e = Escrow::unpack_unchecked(&accounts[3].data).unwrap();
    assert!(e.is_initialized);
    assert_eq!(e.initializer_pubkey, key(1));
    assert_eq!(e.temp_token_account_pubkey, key(2));
    assert_eq!(e.initializer_token_to_receive_account_pubkey, key(3));
    assert_eq!(e.expected_amount, 1_000_000);
    let (pda, _) = SdkPubkey::find_program_address(&[b"escrow"], &SdkPubkey::new_from_array(program_key().to_bytes()));
    assert_eq!(ix.program_id, token_key());
    let mut data = vec![6u8, 2, 1];
    data.extend_from_slice(&pda.to_bytes());
    assert_eq!(ix.data, data);
    assert_eq!(ix.accounts.len(), 3);
    assert_eq!(ix.accounts[0].pubkey, key(2));
    assert!(ix.accounts[0].is_writable && !ix.accounts[0].is_signer);
    assert_eq!(ix.accounts[1].pubkey, key(1));
    assert!(!ix.accounts[1].is_writable && !ix.accounts[1].is_signer);
    assert_eq!(ix.accounts[2].pubkey, key(1));
    assert!(!ix.accounts[2].is_writable && ix.accounts[2].is_signer);
    for i in [0usize, 1, 2, 4, 5] {
        assert_eq!(accounts[i], init_accounts()[i]);
    }
}

#[test]
fn initialization_twice_keeps_record() {
    let mut accounts = init_accounts();
    let first = Processor::process_init_escrow(&mut accounts, 1_000_000, &program_key(), Some(1_000)).unwrap();
    let data = accounts[3].data.clone();
    let second = Processor::process_init_escrow(&mut accounts, 1_000_000, &program_key(), Some(1_000)).unwrap();
    assert_eq!(first, second);
    assert_eq!(accounts[3].data, data);
    assert!(Escrow::unpack_unchecked(&accounts[3].data).unwrap().is_initialized);
}

#[test]
fn counter_account_not_owned_by_token_program_fails() {
    let mut accounts = init_accounts();
    accounts[2].owner = key(9);
    let before = accounts.clone();
    let r = Processor::process_init_escrow(&mut accounts, 5, &program_key(), Some(1_000));
    assert_eq!(r, Err(ProcessError::IncorrectProgramId));
    assert_eq!(accounts, before);
}

#[test]
fn wrong_token_program_account_fails() {
    let mut accounts = init_accounts();
    accounts[5].key = key(8);
    let before = accounts.clone();
    let r = Processor::process_init_escrow(&mut accounts, 5, &program_key(), Some(1_000));
    assert_eq!(r, Err(ProcessError::IncorrectProgramId));
    assert_eq!(accounts, before);
}

#[test]
fn missing_accounts_fail() {
    for n in [0usize, 2, 4, 5] {
        let mut accounts = init_accounts();
        accounts.truncate(n);
        let before = accounts.clone();
        let r = Processor::process_init_escrow(&mut accounts, 5, &program_key(), Some(1_000));
        assert_eq!(r, Err(ProcessError::NotEnoughAccountKeys));
        assert_eq!(accounts, before);
    }
}

#[test]
fn unreadable_rent_sysvar_fails() {
    let mut accounts = init_accounts();
    let r = Processor::process_init_escrow(&mut accounts, 5, &program_key(), None);
    assert_eq!(r, Err(ProcessError::InvalidArgument));
}

#[test]
fn garbage_storage_fails() {
    let mut accounts = init_accounts();
    accounts[3].data[0] = 7;
    let before = accounts.clone();
    let r = Processor::process_init_escrow(&mut accounts, 5, &program_key(), Some(1_000));
    assert_eq!(r, Err(ProcessError::InvalidAccountData));
    assert_eq!(accounts, before);
    let mut accounts = init_accounts();
    accounts[3].data = vec![0u8; 200];
    let r = Processor::process_init_escrow(&mut accounts, 5, &program_key(), Some(1_000));
    assert_eq!(r, Err(ProcessError::InvalidAccountData));
}

#[test]
fn process_dispatches_init() {
    let mut accounts = init_accounts();
    let data = [0u8, 7, 0, 0, 0, 0, 0, 0, 0];
    let r = Processor::process(&program_key(), &mut accounts, &data, Some(1_000));
    assert!(r.is_ok());
    assert_eq!(Escrow::unpack_unchecked(&accounts[3].data).unwrap().expected_amount, 7);
}

#[test]
fn process_rejects_bad_instruction() {
    let mut accounts = init_accounts();
    let before = accounts.clone();
    let r = Processor::process(&program_key(), &mut accounts, &[3u8], Some(1_000));
    assert_eq!(r, Err(ProcessError::Custom(EscrowError::InvalidInstruction)));
    assert_eq!(accounts, before);
}

#[test]
fn pubkey_compare_and_read() {
    let bytes: Vec<u8> = (0u8..40).collect();
    let k = Pubkey::read_from(&bytes, 3);
    let expect: Vec<u8> = (3u8..35).collect();
    assert_eq!(&k.to_bytes()[..], &expect[..]);
    assert!(k.same_as(&k));
    assert!(!k.same_as(&key(3)));
}
