use custody_bridge::bytes::{be_bytes_of, keys_equal, read_be_u64, read_le_u64};
use custody_bridge::error::WrapperError;
use custody_bridge::event_log::{log_append, log_has_space};
use custody_bridge::instruction::{TokenInstruction, WrapperInstruction};
use custody_bridge::processor::{
    AccountRef, InitializeAccounts, LockInAccounts, LockOutAccounts, Processor, TransferRequest,
    AUTHORITY_SEED, TOKEN_PROGRAM_ID,
};
use custody_bridge::registry::{CustodyRecord, CustodyRegistry};
use solana_program::pubkey::Pubkey;

fn key(b: u8) -> [u8; 32] {
    [b; 32]
}

fn record(addr: u8, owner: u8, asset: u8) -> CustodyRecord {
    CustodyRecord { foreign_address: key(addr), owner: key(owner), asset_account: key(asset) }
}

fn initialized(capacity: u16, bump: u8) -> CustodyRegistry {
    let mut r = CustodyRegistry::new();
    r.initialize(capacity, bump).unwrap();
    r
}

fn empty_log(entries: usize) -> Vec<u8> {
    vec![0u8; 8 + 32 * entries]
}

fn account(k: [u8; 32], owner: [u8; 32], is_signer: bool) -> AccountRef {
    AccountRef { key: k, owner, is_signer }
}

const PROGRAM: [u8; 32] = [42u8; 32];

/// A bump whose derivation succeeds, and the authority it derives.
fn authority() -> (u8, [u8; 32]) {
    let (k, bump) =
        Pubkey::find_program_address(&[&AUTHORITY_SEED[..]], &Pubkey::new_from_array(PROGRAM));
    (bump, k.to_bytes())
}

/// The bytes of an initialized token account whose owner is `holder`.
fn token_account(holder: [u8; 32]) -> Vec<u8> {
    let mut d = vec![0u8; 165];
    d[32..64].copy_from_slice(&holder);
    d[108] = 1;
    d
}

fn lock_in_accounts(initiator: u8, source: u8) -> LockInAccounts {
    LockInAccounts {
        token_program: account(TOKEN_PROGRAM_ID, key(0), false),
        initiator: account(key(initiator), key(0), true),
        source: account(key(source), TOKEN_PROGRAM_ID, false),
        custody: account(key(77), TOKEN_PROGRAM_ID, false),
        registry: account(key(78), PROGRAM, false),
        event_log: account(key(79), PROGRAM, false),
    }
}

fn lock_out_accounts(initiator: u8, destination: u8, authority_key: [u8; 32]) -> LockOutAccounts {
    LockOutAccounts {
        token_program: account(TOKEN_PROGRAM_ID, key(0), false),
        initiator: account(key(initiator), key(0), true),
        authority: account(authority_key, key(0), false),
        custody: account(key(77), TOKEN_PROGRAM_ID, false),
        destination: account(key(destination), TOKEN_PROGRAM_ID, false),
        registry: account(key(78), PROGRAM, false),
    }
}

#[test]
fn token_program_id_is_spl_token() {
    assert_eq!(TOKEN_PROGRAM_ID, spl_token::id().to_bytes());
}

#[test]
fn byte_helpers() {
    let b = be_bytes_of(0x0102030405060708);
    assert_eq!(b, [1, 2, 3, 4, 5, 6, 7, 8]);
    assert_eq!(read_be_u64(&b), 0x0102030405060708);
    assert_eq!(read_le_u64(&b), 0x0807060504030201);
    assert!(keys_equal(&key(3), &key(3)));
    let mut k = key(3);
    k[31] = 4;
    assert!(!keys_equal(&key(3), &k));
}

#[test]
fn error_codes() {
    assert_eq!(WrapperError::InvalidInstruction.code(), 0);
    assert_eq!(WrapperError::NotRentExempt.code(), 1);
    assert_eq!(WrapperError::TransferRejected.code(), 9);
}

#[test]
fn wrapper_instruction_decodes_amounts() {
    let mut data = vec![0u8];
    data.extend_from_slice(&5u64.to_le_bytes());
    assert_eq!(WrapperInstruction::unpack(&data), Ok(WrapperInstruction::TransferIn { amount: 5 }));
    data[0] = 1;
    assert_eq!(WrapperInstruction::unpack(&data), Ok(WrapperInstruction::TransferOut { amount: 5 }));
    data.push(9);
    assert_eq!(WrapperInstruction::unpack(&data), Err(WrapperError::InvalidInstruction));
    data.pop();
    data[0] = 2;
    assert_eq!(WrapperInstruction::unpack(&data), Err(WrapperError::InvalidInstruction));
    assert_eq!(WrapperInstruction::unpack(&[0, 1, 2]), Err(WrapperError::InvalidInstruction));
    assert_eq!(WrapperInstruction::unpack(&[]), Err(WrapperError::InvalidInstruction));
    assert_eq!(WrapperInstruction::unpack_amount(&[1, 1, 0, 0, 0, 0, 0, 0]), Ok(257));
    assert_eq!(WrapperInstruction::unpack_amount(&[1, 1]), Err(WrapperError::InvalidInstruction));
    assert_eq!(
        WrapperInstruction::unpack_amount(&[1, 1, 0, 0, 0, 0, 0, 0, 0]),
        Err(WrapperError::InvalidInstruction)
    );
}

#[test]
fn token_instruction_decodes_exact_lengths() {
    let mut data = vec![0u8];
    data.extend_from_slice(&key(1));
    assert_eq!(TokenInstruction::unpack(&data), Ok(TokenInstruction::LockIn { foreign_address: key(1) }));
    data[0] = 1;
    assert_eq!(TokenInstruction::unpack(&data), Ok(TokenInstruction::LockOut { foreign_address: key(1) }));
    data.push(0);
    assert_eq!(TokenInstruction::unpack(&data), Err(WrapperError::InvalidInstruction));
    assert_eq!(TokenInstruction::unpack(&data[..32]), Err(WrapperError::InvalidInstruction));
    assert_eq!(
        TokenInstruction::unpack(&[2, 0x2c, 0x01, 7]),
        Ok(TokenInstruction::Initialize { capacity: 300, bump: 7 })
    );
    assert_eq!(TokenInstruction::unpack(&[2, 0x2c, 0x01]), Err(WrapperError::InvalidInstruction));
    assert_eq!(TokenInstruction::unpack(&[9]), Err(WrapperError::InvalidInstruction));
    assert_eq!(TokenInstruction::unpack(&[]), Err(WrapperError::InvalidInstruction));
}

#[test]
fn second_initialize_fails() {
    let mut r = CustodyRegistry::new();
    assert!(!r.is_initialized());
    assert_eq!(r.initialize(3, 9), Ok(()));
    assert_eq!(r.initialize(5, 1), Err(WrapperError::AlreadyInitialized));
    assert_eq!(r.capacity(), 3);
    assert_eq!(r.authority_bump(), 9);
    assert!(r.is_initialized());
}

#[test]
fn lock_ins_fill_to_capacity() {
    let mut r = initialized(3, 1);
    for i in 0..3u8 {
        assert_eq!(r.lock_in(record(i, i, i)), Ok(()));
        assert_eq!(r.len(), (i + 1) as usize);
    }
    assert!(!r.has_room());
    assert_eq!(r.lock_in(record(9, 9, 9)), Err(WrapperError::RegistryFull));
    assert_eq!(r.len(), 3);
    assert_eq!(r.records()[2], record(2, 2, 2));
}

#[test]
fn zero_capacity_refuses_every_lock_in() {
    let mut r = initialized(0, 1);
    assert_eq!(r.lock_in(record(1, 1, 1)), Err(WrapperError::RegistryFull));
    assert_eq!(r.len(), 0);
}

#[test]
fn lock_out_removes_first_exact_match() {
    let mut r = initialized(4, 1);
    r.lock_in(record(1, 2, 3)).unwrap();
    r.lock_in(record(4, 5, 6)).unwrap();
    r.lock_in(record(1, 2, 3)).unwrap();
    assert_eq!(r.find_record(&record(1, 2, 3)), Some(0));
    assert_eq!(r.lock_out(&record(1, 2, 3)), Ok(()));
    assert_eq!(r.records().clone(), vec![record(4, 5, 6), record(1, 2, 3)]);
}

#[test]
fn lock_out_with_one_field_differing_fails() {
    let mut r = initialized(2, 1);
    r.lock_in(record(1, 2, 3)).unwrap();
    for t in [record(9, 2, 3), record(1, 9, 3), record(1, 2, 9)] {
        assert_eq!(r.lock_out(&t), Err(WrapperError::RecordNotFound));
        assert_eq!(r.records().clone(), vec![record(1, 2, 3)]);
    }
    assert_eq!(r.lock_out(&record(1, 2, 3)), Ok(()));
    assert_eq!(r.len(), 0);
    assert_eq!(r.lock_out(&record(1, 2, 3)), Err(WrapperError::RecordNotFound));
}

#[test]
fn from_parts_respects_capacity() {
    assert!(CustodyRegistry::from_parts(true, 1, 1, vec![record(1, 1, 1), record(2, 2, 2)]).is_none());
    let r = CustodyRegistry::from_parts(true, 1, 2, vec![record(1, 1, 1)]).unwrap();
    assert_eq!(r.len(), 1);
}

#[test]
fn log_counts_and_orders_entries() {
    let mut log = empty_log(3);
    for i in 1..=3u8 {
        assert!(log_has_space(&log));
        assert_eq!(log_append(&mut log, &key(i)), Ok(()));
        assert_eq!(read_be_u64(&log), i as u64);
    }
    assert_eq!(&log[8..40], &key(1));
    assert_eq!(&log[40..72], &key(2));
    assert_eq!(&log[72..104], &key(3));
    assert!(!log_has_space(&log));
    let before = log.clone();
    assert_eq!(log_append(&mut log, &key(4)), Err(WrapperError::LogFull));
    assert_eq!(log, before);
}

#[test]
fn log_too_short_for_header_is_full() {
    let mut log = vec![0u8; 7];
    assert_eq!(log_append(&mut log, &key(1)), Err(WrapperError::LogFull));
    let mut log = vec![0u8; 39];
    assert_eq!(log_append(&mut log, &key(1)), Err(WrapperError::LogFull));
}

#[test]
fn log_keeps_bytes_after_entries() {
    let mut log = vec![0u8; 8 + 32 * 2];
    log[70] = 5;
    log_append(&mut log, &key(1)).unwrap();
    assert_eq!(log[70], 5);
    assert_eq!(&log[0..8], &[0, 0, 0, 0, 0, 0, 0, 1]);
}

#[test]
fn initialize_checks_signer_and_owner() {
    let mut r = CustodyRegistry::new();
    let unsigned = InitializeAccounts {
        admin: account(key(1), key(0), false),
        registry: account(key(2), PROGRAM, false),
    };
    assert_eq!(Processor::initialize(&mut r, &unsigned, &PROGRAM, 2, 7), Err(WrapperError::MissingSignature));
    let foreign = InitializeAccounts {
        admin: account(key(1), key(0), true),
        registry: account(key(2), key(3), false),
    };
    assert_eq!(Processor::initialize(&mut r, &foreign, &PROGRAM, 2, 7), Err(WrapperError::OwnerMismatch));
    assert!(!r.is_initialized());
    let good = InitializeAccounts { admin: account(key(1), key(0), true), registry: account(key(2), PROGRAM, false) };
    assert_eq!(Processor::initialize(&mut r, &good, &PROGRAM, 0, 0), Err(WrapperError::InvalidInstruction));
    assert!(!r.is_initialized());
    assert_eq!(Processor::initialize(&mut r, &good, &PROGRAM, 2, 7), Ok(()));
    assert_eq!(Processor::initialize(&mut r, &good, &PROGRAM, 2, 7), Err(WrapperError::AlreadyInitialized));
    assert_eq!(Processor::initialize(&mut r, &good, &PROGRAM, 0, 0), Err(WrapperError::AlreadyInitialized));
    assert_eq!(r.capacity(), 2);
    assert_eq!(r.authority_bump(), 7);
}

#[test]
fn lock_in_checks_in_order() {
    let (bump, pda) = authority();
    let r = initialized(2, bump);
    let log = empty_log(2);
    let custody = token_account(pda);
    let a = lock_in_accounts(11, 21);
    assert_eq!(
        Processor::begin_lock_in(&r, &log, &a, &custody, &PROGRAM),
        Ok(TransferRequest { source: key(21), destination: key(77), authority: key(11), amount: 1 })
    );
    let mut unsigned = a;
    unsigned.initiator.is_signer = false;
    unsigned.token_program.key = key(5);
    assert_eq!(Processor::begin_lock_in(&r, &log, &unsigned, &custody, &PROGRAM), Err(WrapperError::MissingSignature));
    let mut wrong_token = a;
    wrong_token.token_program.key = key(5);
    assert_eq!(Processor::begin_lock_in(&r, &log, &wrong_token, &custody, &PROGRAM), Err(WrapperError::OwnerMismatch));
    let mut wrong_log = a;
    wrong_log.event_log.owner = key(5);
    assert_eq!(Processor::begin_lock_in(&r, &log, &wrong_log, &custody, &PROGRAM), Err(WrapperError::OwnerMismatch));
    // The custody account must be held by the derived authority.
    let other_holder = token_account(key(12));
    assert_eq!(Processor::begin_lock_in(&r, &log, &a, &other_holder, &PROGRAM), Err(WrapperError::OwnerMismatch));
    assert_eq!(Processor::begin_lock_in(&r, &log, &a, &custody[..100], &PROGRAM), Err(WrapperError::OwnerMismatch));
    let full_log = empty_log(0);
    assert_eq!(Processor::begin_lock_in(&r, &full_log, &a, &custody, &PROGRAM), Err(WrapperError::LogFull));
}

#[test]
fn lock_out_with_wrong_authority_is_refused() {
    let (bump, pda) = authority();
    let mut r = initialized(2, bump);
    let mut log = empty_log(2);
    let custody = token_account(pda);
    let a = lock_in_accounts(11, 21);
    Processor::finish_lock_in(&mut r, &mut log, &a, &key(1), true).unwrap();
    let good = lock_out_accounts(11, 21, pda);
    assert_eq!(
        Processor::begin_lock_out(&r, &good, &custody, &PROGRAM, &key(1)),
        Ok(TransferRequest { source: key(77), destination: key(21), authority: pda, amount: 1 })
    );
    let forged = lock_out_accounts(11, 21, key(66));
    assert_eq!(Processor::begin_lock_out(&r, &forged, &custody, &PROGRAM, &key(1)), Err(WrapperError::AuthorityMismatch));
    // A registry set up with another bump derives another authority.
    let other_bump = initialized(2, bump.wrapping_sub(1));
    assert_eq!(
        Processor::begin_lock_out(&other_bump, &good, &custody, &PROGRAM, &key(1)),
        Err(WrapperError::AuthorityMismatch)
    );
    assert_eq!(Processor::begin_lock_out(&r, &good, &custody, &PROGRAM, &key(2)), Err(WrapperError::RecordNotFound));
}

#[test]
fn rejected_transfer_changes_nothing() {
    let mut r = initialized(2, 1);
    let mut log = empty_log(2);
    let a = lock_in_accounts(11, 21);
    assert_eq!(Processor::finish_lock_in(&mut r, &mut log, &a, &key(1), false), Err(WrapperError::TransferRejected));
    assert_eq!(r.len(), 0);
    assert_eq!(log, empty_log(2));
    Processor::finish_lock_in(&mut r, &mut log, &a, &key(1), true).unwrap();
    let out = lock_out_accounts(11, 21, key(66));
    assert_eq!(Processor::finish_lock_out(&mut r, &out, &key(1), false), Err(WrapperError::TransferRejected));
    assert_eq!(r.len(), 1);
    assert_eq!(Processor::finish_lock_out(&mut r, &out, &key(1), true), Ok(()));
    assert_eq!(r.len(), 0);
}

#[test]
fn finish_lock_in_refuses_full_log_before_any_change() {
    let mut r = initialized(2, 1);
    let mut log = empty_log(0);
    let a = lock_in_accounts(11, 21);
    assert_eq!(Processor::finish_lock_in(&mut r, &mut log, &a, &key(1), true), Err(WrapperError::LogFull));
    assert_eq!(r.len(), 0);
}

#[test]
fn two_slot_registry_walkthrough() {
    let mut r = CustodyRegistry::new();
    let admin = InitializeAccounts { admin: account(key(1), key(0), true), registry: account(key(78), PROGRAM, false) };
    Processor::initialize(&mut r, &admin, &PROGRAM, 2, 7).unwrap();
    let mut log = empty_log(4);
    let first = lock_in_accounts(101, 201);
    assert_eq!(Processor::finish_lock_in(&mut r, &mut log, &first, &key(1), true), Ok(()));
    assert_eq!(r.len(), 1);
    assert_eq!(read_be_u64(&log), 1);
    assert_eq!(&log[8..40], &key(1));
    let second = lock_in_accounts(102, 202);
    assert_eq!(Processor::finish_lock_in(&mut r, &mut log, &second, &key(2), true), Ok(()));
    assert_eq!(r.len(), 2);
    let third = lock_in_accounts(103, 203);
    assert_eq!(Processor::finish_lock_in(&mut r, &mut log, &third, &key(3), true), Err(WrapperError::RegistryFull));
    assert_eq!(r.len(), 2);
    assert_eq!(read_be_u64(&log), 2);
    let out = lock_out_accounts(101, 201, key(66));
    assert_eq!(Processor::finish_lock_out(&mut r, &out, &key(1), true), Ok(()));
    assert_eq!(r.records().clone(), vec![record(2, 102, 202)]);
}

#[test]
fn registry_bytes_round_trip() {
    let mut r = initialized(3, 9);
    r.lock_in(record(1, 2, 3)).unwrap();
    r.lock_in(record(4, 5, 6)).unwrap();
    let mut data = vec![0u8; 7 + 96 * 3 + 1];
    let last = data.len() - 1;
    data[last] = 0xab;
    r.store(&mut data);
    assert_eq!(&data[0..7], &[9, 3, 0, 2, 0, 0, 0]);
    assert_eq!(&data[7..39], &key(1));
    assert_eq!(&data[103..135], &key(4));
    assert_eq!(data[last], 0xab);
    let back = CustodyRegistry::load(&data).unwrap();
    assert!(back.is_initialized());
    assert_eq!(back.authority_bump(), 9);
    assert_eq!(back.capacity(), 3);
    assert_eq!(back.records().clone(), vec![record(1, 2, 3), record(4, 5, 6)]);
}

#[test]
fn registry_bytes_refused_when_inconsistent() {
    assert!(CustodyRegistry::load(&[0u8; 6]).is_none());
    // Two records announced, capacity one.
    assert!(CustodyRegistry::load(&[1, 1, 0, 2, 0, 0, 0]).is_none());
    // One record announced, no room for it.
    assert!(CustodyRegistry::load(&[1, 1, 0, 1, 0, 0, 0, 5]).is_none());
    let fresh = CustodyRegistry::load(&[0u8; 7 + 96]).unwrap();
    assert!(!fresh.is_initialized());
    assert_eq!(fresh.len(), 0);
    let big = CustodyRegistry::load(&[1, 0x2c, 0x01, 0, 0, 0, 0]).unwrap();
    assert_eq!(big.capacity(), 300);
}

#[test]
fn custody_account_must_be_a_well_formed_token_account() {
    let (bump, pda) = authority();
    let r = initialized(2, bump);
    let log = empty_log(2);
    let a = lock_in_accounts(11, 21);
    let mut frozen = token_account(pda);
    frozen[108] = 2;
    assert!(Processor::begin_lock_in(&r, &log, &a, &frozen, &PROGRAM).is_ok());
    let mut uninitialized = token_account(pda);
    uninitialized[108] = 0;
    assert_eq!(Processor::begin_lock_in(&r, &log, &a, &uninitialized, &PROGRAM), Err(WrapperError::OwnerMismatch));
    let mut bad_state = token_account(pda);
    bad_state[108] = 3;
    assert_eq!(Processor::begin_lock_in(&r, &log, &a, &bad_state, &PROGRAM), Err(WrapperError::OwnerMismatch));
    for at in [72usize, 109, 129] {
        let mut with_delegate = token_account(pda);
        with_delegate[at] = 1;
        assert!(Processor::begin_lock_in(&r, &log, &a, &with_delegate, &PROGRAM).is_ok());
        let mut bad_tag = token_account(pda);
        bad_tag[at] = 2;
        assert_eq!(Processor::begin_lock_in(&r, &log, &a, &bad_tag, &PROGRAM), Err(WrapperError::OwnerMismatch));
        let mut high_tag = token_account(pda);
        high_tag[at + 3] = 1;
        assert_eq!(Processor::begin_lock_in(&r, &log, &a, &high_tag, &PROGRAM), Err(WrapperError::OwnerMismatch));
    }
}
