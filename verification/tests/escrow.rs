use escrow::account::{Account, AccountId};
use escrow::authority::{derive_authority, is_valid_proof, seed_bytes};
use escrow::error::EscrowError;
use escrow::ledger::{AuthorityKind, CloseAccount, SetAuthority, Transfer};
use escrow::processor::{Opening, Processor, Settlement};
use escrow::state::Escrow;
use solana_program::account_info::AccountInfo;
use solana_program::entrypoint::ProgramResult;
use solana_program::instruction::Instruction;
use solana_program::program_error::ProgramError;
use solana_program::program_option::COption;
use solana_program::program_pack::Pack;
use solana_program::program_stubs::{set_syscall_stubs, SyscallStubs};
use solana_program::pubkey::Pubkey;
use solana_program::rent::Rent;
use spl_token::state::{Account as TokenAccount, AccountState};

const PROGRAM: [u8; 32] = [7; 32];
const ALICE: u8 = 10;
const ALICE_X: u8 = 11;
const ALICE_Y: u8 = 12;
const RECORD: u8 = 13;
const BOB: u8 = 20;
const BOB_Y: u8 = 21;
const BOB_X: u8 = 22;
const MINT_X: u8 = 30;
const MINT_Y: u8 = 31;
/// The reserve that the default rent schedule asks for 105 bytes.
const RECORD_RESERVE: u64 = (128 + 105) * 3480 * 2;
const TOKEN_RESERVE: u64 = (128 + 165) * 3480 * 2;

/// Stands in for the host: hands each call to the ledger program itself.
struct Ledger;

impl SyscallStubs for Ledger {
    fn sol_log(&self, _message: &str) {}

    fn sol_invoke_signed(
        &self,
        instruction: &Instruction,
        account_infos: &[AccountInfo],
        signers_seeds: &[&[&[u8]]],
    ) -> ProgramResult {
        let derived: Vec<Pubkey> = signers_seeds
            .iter()
            .filter_map(|seeds| {
                Pubkey::create_program_address(seeds, &Pubkey::new_from_array(PROGRAM)).ok()
            })
            .collect();
        let mut handed = Vec::new();
        for meta in instruction.accounts.iter() {
            let mut info = account_infos
                .iter()
                .find(|info| *info.key == meta.pubkey)
                .ok_or(ProgramError::NotEnoughAccountKeys)?
                .clone();
            let asked = instruction
                .accounts
                .iter()
                .any(|other| other.pubkey == meta.pubkey && other.is_signer);
            info.is_signer = asked && (info.is_signer || derived.contains(info.key));
            handed.push(info);
        }
        spl_token::processor::Processor::process(
            &instruction.program_id,
            &handed,
            &instruction.data,
        )
    }
}

fn with_ledger() {
    set_syscall_stubs(Box::new(Ledger));
}

fn id(n: u8) -> AccountId {
    AccountId::new([n; 32])
}

fn program_id() -> AccountId {
    AccountId::new(PROGRAM)
}

fn ledger_id() -> AccountId {
    AccountId::new(spl_token::id().to_bytes())
}

fn authority() -> (AccountId, u8) {
    let (key, bump) = Pubkey::find_program_address(&[b"escrow"], &Pubkey::new_from_array(PROGRAM));
    (AccountId::new(key.to_bytes()), bump)
}

fn wallet(key: AccountId, is_signer: bool, lamports: u64) -> Account {
    Account {
        key,
        owner: AccountId::new([0; 32]),
        is_signer,
        is_writable: true,
        executable: false,
        rent_epoch: 0,
        lamports,
        data: vec![],
    }
}

fn token_data(mint: u8, holder: AccountId, amount: u64, state: AccountState) -> Vec<u8> {
    let account = TokenAccount {
        mint: Pubkey::new_from_array([mint; 32]),
        owner: Pubkey::new_from_array(holder.bytes),
        amount,
        delegate: COption::None,
        state,
        is_native: COption::None,
        delegated_amount: 0,
        close_authority: COption::None,
    };
    let mut data = vec![0u8; 165];
    TokenAccount::pack(account, &mut data).unwrap();
    data
}

fn token_account(key: u8, mint: u8, holder: AccountId, amount: u64) -> Account {
    Account {
        key: id(key),
        owner: ledger_id(),
        is_signer: false,
        is_writable: true,
        executable: false,
        rent_epoch: 0,
        lamports: TOKEN_RESERVE,
        data: token_data(mint, holder, amount, AccountState::Initialized),
    }
}

fn token_amount(account: &Account) -> u64 {
    TokenAccount::unpack(&account.data).unwrap().amount
}

fn token_holder(account: &Account) -> AccountId {
    AccountId::new(TokenAccount::unpack(&account.data).unwrap().owner.to_bytes())
}

fn record_storage(lamports: u64) -> Account {
    Account {
        key: id(RECORD),
        owner: program_id(),
        is_signer: false,
        is_writable: true,
        executable: false,
        rent_epoch: 0,
        lamports,
        data: vec![0; 105],
    }
}

fn rent_data(lamports_per_byte_year: u64, exemption_threshold: f64, burn_percent: u8) -> Vec<u8> {
    let mut data = lamports_per_byte_year.to_le_bytes().to_vec();
    data.extend_from_slice(&exemption_threshold.to_le_bytes());
    data.push(burn_percent);
    data
}

fn rent_account() -> Account {
    Account {
        key: AccountId::new(solana_program::sysvar::rent::id().to_bytes()),
        owner: AccountId::new(solana_program::sysvar::id().to_bytes()),
        is_signer: false,
        is_writable: false,
        executable: false,
        rent_epoch: 0,
        lamports: 1_009_200,
        data: rent_data(3480, 2.0, 50),
    }
}

fn ledger_program_account() -> Account {
    Account {
        key: ledger_id(),
        owner: AccountId::new([2; 32]),
        is_signer: false,
        is_writable: false,
        executable: true,
        rent_epoch: 0,
        lamports: 1,
        data: vec![],
    }
}

/// The accounts of an opening: Alice deposits 100 of X and asks for Y.
fn opening_accounts() -> Vec<Account> {
    vec![
        wallet(id(ALICE), true, 5_000_000),
        token_account(ALICE_X, MINT_X, id(ALICE), 100),
        token_account(ALICE_Y, MINT_Y, id(ALICE), 0),
        record_storage(RECORD_RESERVE),
        rent_account(),
        ledger_program_account(),
    ]
}

/// The accounts of an exchange over what an opening left, with Bob holding
/// `bob_has` of Y.
fn exchange_accounts(opened: &[Account], bob_has: u64) -> Vec<Account> {
    let mut alice = opened[0].clone();
    alice.is_signer = false;
    vec![
        wallet(id(BOB), true, 3_000_000),
        token_account(BOB_Y, MINT_Y, id(BOB), bob_has),
        token_account(BOB_X, MINT_X, id(BOB), 0),
        opened[1].clone(),
        alice,
        opened[2].clone(),
        opened[3].clone(),
        ledger_program_account(),
        wallet(authority().0, false, 0),
    ]
}

/// An escrow opened by Alice for a price of 50, ready to be fulfilled by Bob.
fn opened_escrow(bob_has: u64) -> Vec<Account> {
    with_ledger();
    let mut accounts = opening_accounts();
    assert_eq!(Processor::process_init_escrow(&mut accounts, 50, &program_id()), Ok(()));
    exchange_accounts(&accounts, bob_has)
}

fn expected_record(amount: u64) -> Escrow {
    Escrow {
        is_initialized: true,
        initializer_pubkey: id(ALICE),
        temp_token_account_pubkey: id(ALICE_X),
        initializer_token_to_receive_account_pubkey: id(ALICE_Y),
        expected_amount: amount,
    }
}

#[test]
fn ledger_program_identity_is_the_token_program() {
    let mut accounts = opening_accounts();
    accounts[2].owner = AccountId::new([
        6, 221, 246, 225, 215, 101, 161, 147, 217, 203, 225, 70, 206, 235, 121, 172, 28, 180, 133,
        237, 95, 91, 55, 145, 58, 140, 245, 133, 126, 255, 0, 169,
    ]);
    assert_eq!(accounts[2].owner, ledger_id());
    assert!(Processor::check_init_escrow(&accounts, 50, &program_id()).is_ok());
}

#[test]
fn derive_authority_is_the_program_address_of_the_seed() {
    assert_eq!(seed_bytes(), *b"escrow");
    assert_eq!(derive_authority(&program_id()), Some(authority()));
    let other = AccountId::new([8; 32]);
    let (key, bump) =
        Pubkey::find_program_address(&[b"escrow"], &Pubkey::new_from_array(other.bytes));
    assert_eq!(derive_authority(&other), Some((AccountId::new(key.to_bytes()), bump)));
    assert_ne!(derive_authority(&other), derive_authority(&program_id()));
}

#[test]
fn is_valid_proof_accepts_only_the_derived_pair() {
    let (pda, bump_seed) = authority();
    assert!(is_valid_proof(&program_id(), &pda, bump_seed));
    assert!(!is_valid_proof(&program_id(), &pda, bump_seed.wrapping_sub(1)));
    assert!(!is_valid_proof(&program_id(), &id(ALICE), bump_seed));
    assert!(!is_valid_proof(&AccountId::new([8; 32]), &pda, bump_seed));
}

#[test]
fn derive_authority_is_deterministic_and_off_curve() {
    let first = derive_authority(&program_id()).unwrap();
    let second = derive_authority(&program_id()).unwrap();
    assert_eq!(first, second);
    assert!(!Pubkey::new_from_array(first.0.bytes).is_on_curve());
}

#[test]
fn check_rent_accepts_exactly_the_reserve() {
    let rent = Rent::default();
    assert_eq!(RECORD_RESERVE, 1_621_680);
    assert_eq!(Processor::check_rent(&rent, RECORD_RESERVE, 105), Ok(()));
    assert_eq!(Processor::check_rent(&rent, u64::MAX, 105), Ok(()));
    assert_eq!(
        Processor::check_rent(&rent, RECORD_RESERVE - 1, 105),
        Err(EscrowError::NotRentExempt)
    );
    assert_eq!(Processor::check_rent(&rent, 0, 105), Err(EscrowError::NotRentExempt));
    assert_eq!(Processor::check_rent(&rent, 128 * 3480 * 2, 0), Ok(()));
}

#[test]
fn check_rent_refuses_a_reserve_beyond_64_bits() {
    let rent =
        Rent { lamports_per_byte_year: u64::MAX, exemption_threshold: 2.0, burn_percent: 50 };
    assert_eq!(Processor::check_rent(&rent, u64::MAX, 105), Err(EscrowError::RentOutOfRange));
    let rent = Rent {
        lamports_per_byte_year: u64::MAX / 233 + 1,
        exemption_threshold: 2.0,
        burn_percent: 50,
    };
    assert_eq!(Processor::check_rent(&rent, u64::MAX, 105), Err(EscrowError::RentOutOfRange));
    let rent =
        Rent { lamports_per_byte_year: u64::MAX / 233, exemption_threshold: 0.0, burn_percent: 50 };
    assert_eq!(Processor::check_rent(&rent, 0, 105), Ok(()));
}

#[test]
fn reserve_fits_exactly_up_to_64_bits() {
    assert!(Processor::reserve_fits(3480, 105));
    assert!(Processor::reserve_fits(0, usize::MAX - 128));
    assert!(Processor::reserve_fits(u64::MAX / 233, 105));
    assert!(!Processor::reserve_fits(u64::MAX / 233 + 1, 105));
    assert!(Processor::reserve_fits(u64::MAX / 128, 0));
    assert!(!Processor::reserve_fits(u64::MAX / 128 + 1, 0));
    assert!(!Processor::reserve_fits(0, usize::MAX));
    assert!(!Processor::reserve_fits(0, usize::MAX - 127));
}

#[test]
fn check_rent_account_reads_the_schedule_from_the_rent_account() {
    let rent = rent_account();
    assert_eq!(Processor::check_rent_account(&rent, RECORD_RESERVE, 105), Ok(()));
    assert_eq!(
        Processor::check_rent_account(&rent, RECORD_RESERVE - 1, 105),
        Err(EscrowError::NotRentExempt)
    );
    let mut dearer = rent_account();
    dearer.data = rent_data(3480, 4.0, 50);
    assert_eq!(
        Processor::check_rent_account(&dearer, RECORD_RESERVE, 105),
        Err(EscrowError::NotRentExempt)
    );
    assert_eq!(Processor::check_rent_account(&dearer, 2 * RECORD_RESERVE, 105), Ok(()));
    let mut other = rent_account();
    other.key = id(98);
    assert_eq!(
        Processor::check_rent_account(&other, u64::MAX, 105),
        Err(EscrowError::InvalidRent)
    );
}

#[test]
fn plan_init_escrow_takes_the_rent_check_and_the_authority_as_given() {
    let accounts = opening_accounts();
    let given = Some((id(77), 3u8));
    let plan = Processor::plan_init_escrow(&accounts, 9, Ok(()), given).unwrap();
    assert_eq!(plan.record, expected_record(9));
    assert_eq!(plan.custody.new_authority, id(77));
    assert_eq!(plan.custody.account, id(ALICE_X));
    assert_eq!(plan.custody.current_authority, id(ALICE));
    assert_eq!(plan.custody.kind, AuthorityKind::AccountOwner);
    assert_eq!(
        Processor::plan_init_escrow(&accounts, 9, Err(EscrowError::NotRentExempt), given),
        Err(EscrowError::NotRentExempt)
    );
    assert_eq!(
        Processor::plan_init_escrow(&accounts, 9, Err(EscrowError::InvalidRent), given),
        Err(EscrowError::InvalidRent)
    );
    assert_eq!(
        Processor::plan_init_escrow(&accounts, 9, Ok(()), None),
        Err(EscrowError::AuthorityNotFound)
    );
    // An earlier check wins over the rent check, a later one does not.
    let mut unsigned = opening_accounts();
    unsigned[0].is_signer = false;
    assert_eq!(
        Processor::plan_init_escrow(&unsigned, 9, Err(EscrowError::NotRentExempt), given),
        Err(EscrowError::MissingSignature)
    );
    let mut taken = opening_accounts();
    taken[3].data[0] = 1;
    assert_eq!(
        Processor::plan_init_escrow(&taken, 9, Err(EscrowError::NotRentExempt), given),
        Err(EscrowError::NotRentExempt)
    );
    assert_eq!(
        Processor::plan_init_escrow(&taken, 9, Ok(()), None),
        Err(EscrowError::AlreadyInitialized)
    );
}

#[test]
fn plan_exchange_takes_the_authority_as_given() {
    let accounts = opened_escrow(50);
    let plan = Processor::plan_exchange(&accounts, 100, Some((id(77), 3))).unwrap();
    assert_eq!(plan.release.authority, id(77));
    assert_eq!(plan.closing.authority, id(77));
    assert_eq!(plan.payment.authority, id(BOB));
    assert_eq!(plan.bump_seed, 3);
    assert_eq!(
        Processor::plan_exchange(&accounts, 100, None),
        Err(EscrowError::AuthorityNotFound)
    );
    assert_eq!(
        Processor::plan_exchange(&accounts, 99, None),
        Err(EscrowError::AmountMismatch)
    );
}

#[test]
fn init_plans_the_record_and_the_custody_call() {
    let accounts = opening_accounts();
    let plan = Processor::check_init_escrow(&accounts, 50, &program_id());
    assert_eq!(
        plan,
        Ok(Opening {
            record: expected_record(50),
            custody: SetAuthority {
                account: id(ALICE_X),
                new_authority: authority().0,
                kind: AuthorityKind::AccountOwner,
                current_authority: id(ALICE),
            },
        })
    );
}

#[test]
fn init_writes_the_record_and_hands_over_custody() {
    with_ledger();
    let mut accounts = opening_accounts();
    let before = accounts.clone();
    assert_eq!(Processor::process_init_escrow(&mut accounts, 50, &program_id()), Ok(()));
    assert_eq!(Escrow::unpack(&accounts[3].data), Ok(expected_record(50)));
    assert_eq!(token_holder(&accounts[1]), authority().0);
    assert_eq!(token_holder(&accounts[1]), derive_authority(&program_id()).unwrap().0);
    // No asset moves.
    assert_eq!(token_amount(&accounts[1]), 100);
    assert_eq!(token_amount(&accounts[2]), 0);
    assert_eq!(accounts[0], before[0]);
    assert_eq!(accounts[2], before[2]);
    assert_eq!(accounts[4], before[4]);
    assert_eq!(accounts[5], before[5]);
    assert_eq!(accounts[3].lamports, RECORD_RESERVE);
}

#[test]
fn init_through_the_dispatcher() {
    with_ledger();
    let mut accounts = opening_accounts();
    let data = [0u8, 50, 0, 0, 0, 0, 0, 0, 0];
    assert_eq!(Processor::process(&program_id(), &mut accounts, &data), Ok(()));
    assert_eq!(Escrow::unpack(&accounts[3].data), Ok(expected_record(50)));
    assert_eq!(token_holder(&accounts[1]), authority().0);
}

#[test]
fn dispatcher_refuses_unknown_instruction_and_changes_nothing() {
    with_ledger();
    let mut accounts = opening_accounts();
    let before = accounts.clone();
    assert_eq!(
        Processor::process(&program_id(), &mut accounts, &[9, 50, 0, 0, 0, 0, 0, 0, 0]),
        Err(EscrowError::InvalidInstruction)
    );
    assert_eq!(
        Processor::process(&program_id(), &mut accounts, &[0, 50]),
        Err(EscrowError::InvalidInstruction)
    );
    assert_eq!(accounts, before);
}

#[test]
fn init_refuses_too_few_accounts() {
    let mut accounts = opening_accounts();
    accounts.pop();
    let before = accounts.clone();
    assert_eq!(
        Processor::process_init_escrow(&mut accounts, 50, &program_id()),
        Err(EscrowError::NotEnoughAccounts)
    );
    assert_eq!(accounts, before);
    let mut none: Vec<Account> = vec![];
    assert_eq!(
        Processor::process_init_escrow(&mut none, 50, &program_id()),
        Err(EscrowError::NotEnoughAccounts)
    );
}

#[test]
fn init_refuses_an_initializer_who_did_not_sign() {
    let mut accounts = opening_accounts();
    accounts[0].is_signer = false;
    let before = accounts.clone();
    assert_eq!(
        Processor::process_init_escrow(&mut accounts, 50, &program_id()),
        Err(EscrowError::MissingSignature)
    );
    assert_eq!(accounts, before);
}

#[test]
fn init_refuses_a_receive_account_of_another_program() {
    let mut accounts = opening_accounts();
    accounts[2].owner = id(99);
    let before = accounts.clone();
    assert_eq!(
        Processor::process_init_escrow(&mut accounts, 50, &program_id()),
        Err(EscrowError::WrongAssetProgram)
    );
    assert_eq!(accounts, before);
}

#[test]
fn init_refuses_an_account_that_is_not_the_rent_account() {
    let mut accounts = opening_accounts();
    accounts[4].key = id(98);
    assert_eq!(
        Processor::process_init_escrow(&mut accounts, 50, &program_id()),
        Err(EscrowError::InvalidRent)
    );
    let mut accounts = opening_accounts();
    accounts[4].data = vec![1, 2, 3];
    let before = accounts.clone();
    assert_eq!(
        Processor::process_init_escrow(&mut accounts, 50, &program_id()),
        Err(EscrowError::InvalidRent)
    );
    assert_eq!(accounts, before);
}

#[test]
fn init_refuses_storage_below_its_reserve() {
    let mut accounts = opening_accounts();
    accounts[3].lamports = RECORD_RESERVE - 1;
    let before = accounts.clone();
    assert_eq!(
        Processor::process_init_escrow(&mut accounts, 50, &program_id()),
        Err(EscrowError::NotRentExempt)
    );
    assert_eq!(accounts, before);
}

#[test]
fn init_refuses_a_rent_schedule_beyond_64_bits() {
    let mut accounts = opening_accounts();
    accounts[4].data = rent_data(u64::MAX, 2.0, 50);
    accounts[3].lamports = u64::MAX;
    assert_eq!(
        Processor::process_init_escrow(&mut accounts, 50, &program_id()),
        Err(EscrowError::RentOutOfRange)
    );
}

#[test]
fn init_refuses_storage_of_the_wrong_size() {
    let mut accounts = opening_accounts();
    accounts[3].data = vec![0; 104];
    let before = accounts.clone();
    assert_eq!(
        Processor::process_init_escrow(&mut accounts, 50, &program_id()),
        Err(EscrowError::InvalidAccountData)
    );
    assert_eq!(accounts, before);
}

#[test]
fn init_refuses_another_ledger_program() {
    let mut accounts = opening_accounts();
    accounts[5].key = id(97);
    let before = accounts.clone();
    assert_eq!(
        Processor::process_init_escrow(&mut accounts, 50, &program_id()),
        Err(EscrowError::WrongAssetProgram)
    );
    assert_eq!(accounts, before);
}

#[test]
fn init_reports_what_the_ledger_refuses() {
    with_ledger();
    let mut accounts = opening_accounts();
    // The custody account belongs to somebody else: the ledger will not let
    // Alice hand it over.
    accounts[1].data = token_data(MINT_X, id(BOB), 100, AccountState::Initialized);
    assert_eq!(
        Processor::process_init_escrow(&mut accounts, 50, &program_id()),
        Err(EscrowError::Ledger(ProgramError::Custom(4)))
    );
    assert_eq!(token_holder(&accounts[1]), id(BOB));
}

#[test]
fn init_twice_fails_with_already_initialized() {
    with_ledger();
    let mut accounts = opening_accounts();
    assert_eq!(Processor::process_init_escrow(&mut accounts, 50, &program_id()), Ok(()));
    let after_first = accounts.clone();
    assert_eq!(
        Processor::process_init_escrow(&mut accounts, 75, &program_id()),
        Err(EscrowError::AlreadyInitialized)
    );
    assert_eq!(accounts, after_first);
    assert_eq!(Escrow::unpack(&accounts[3].data), Ok(expected_record(50)));
}

#[test]
fn exchange_plans_the_three_ledger_calls() {
    let accounts = opened_escrow(50);
    let (pda, bump_seed) = authority();
    assert_eq!(
        Processor::check_exchange(&accounts, 100, &program_id()),
        Ok(Settlement {
            payment: Transfer {
                source: id(BOB_Y),
                destination: id(ALICE_Y),
                authority: id(BOB),
                amount: 50,
            },
            release: Transfer {
                source: id(ALICE_X),
                destination: id(BOB_X),
                authority: pda,
                amount: 100,
            },
            closing: CloseAccount { account: id(ALICE_X), refund_to: id(ALICE), authority: pda },
            bump_seed,
        })
    );
}

#[test]
fn exchange_settles_atomically() {
    let mut accounts = opened_escrow(50);
    let before = accounts.clone();
    assert_eq!(Processor::process_exchange(&mut accounts, 100, &program_id()), Ok(()));
    // Alice is paid 50 of Y, Bob receives 100 of X.
    assert_eq!(token_amount(&accounts[5]), token_amount(&before[5]) + 50);
    assert_eq!(token_amount(&accounts[5]), 50);
    assert_eq!(token_amount(&accounts[2]), token_amount(&before[2]) + 100);
    assert_eq!(token_amount(&accounts[2]), 100);
    assert_eq!(token_amount(&accounts[1]), 0);
    // The custody account is gone: no balance, no contents.
    assert_eq!(accounts[3].lamports, 0);
    assert_eq!(accounts[3].data, vec![0u8; 165]);
    assert!(TokenAccount::unpack(&accounts[3].data).is_err());
    // The record is retired and both reserves are with Alice.
    assert_eq!(accounts[6].lamports, 0);
    assert_eq!(accounts[6].data, vec![0u8; 105]);
    assert_eq!(accounts[4].lamports, before[4].lamports + TOKEN_RESERVE + RECORD_RESERVE);
    assert_eq!(accounts[4].lamports, 5_000_000 + 2_039_280 + 1_621_680);
    // Nobody else's balance moved.
    assert_eq!(accounts[0].lamports, before[0].lamports);
    assert_eq!(accounts[1].lamports, before[1].lamports);
    assert_eq!(accounts[2].lamports, before[2].lamports);
    assert_eq!(accounts[5].lamports, before[5].lamports);
    assert_eq!(accounts[7], before[7]);
    assert_eq!(accounts[8], before[8]);
}

#[test]
fn exchange_through_the_dispatcher() {
    let mut accounts = opened_escrow(80);
    let data = [1u8, 100, 0, 0, 0, 0, 0, 0, 0];
    assert_eq!(Processor::process(&program_id(), &mut accounts, &data), Ok(()));
    assert_eq!(token_amount(&accounts[5]), 50);
    assert_eq!(token_amount(&accounts[1]), 30);
    assert_eq!(token_amount(&accounts[2]), 100);
    assert_eq!(accounts[6].data, vec![0u8; 105]);
}

#[test]
fn exchange_again_fails_and_changes_nothing() {
    let mut accounts = opened_escrow(50);
    assert_eq!(Processor::process_exchange(&mut accounts, 100, &program_id()), Ok(()));
    let after_first = accounts.clone();
    assert!(Processor::process_exchange(&mut accounts, 100, &program_id()).is_err());
    assert_eq!(accounts, after_first);
    // Even with a custody account that is in use again, the record is gone.
    accounts[3] = token_account(ALICE_X, MINT_X, authority().0, 100);
    let refilled = accounts.clone();
    assert_eq!(
        Processor::process_exchange(&mut accounts, 100, &program_id()),
        Err(EscrowError::UninitializedAccount)
    );
    assert_eq!(accounts, refilled);
}

#[test]
fn exchange_refuses_too_few_accounts() {
    let mut accounts = opened_escrow(50);
    accounts.pop();
    let before = accounts.clone();
    assert_eq!(
        Processor::process_exchange(&mut accounts, 100, &program_id()),
        Err(EscrowError::NotEnoughAccounts)
    );
    assert_eq!(accounts, before);
}

#[test]
fn exchange_refuses_a_taker_who_did_not_sign() {
    let mut accounts = opened_escrow(50);
    accounts[0].is_signer = false;
    let before = accounts.clone();
    assert_eq!(
        Processor::process_exchange(&mut accounts, 100, &program_id()),
        Err(EscrowError::MissingSignature)
    );
    assert_eq!(accounts, before);
}

#[test]
fn exchange_refuses_custody_that_is_no_asset_account() {
    let mut accounts = opened_escrow(50);
    let good = accounts[3].data.clone();
    let spoiled =
        [(108usize, 0u8), (108, 3), (72, 2), (73, 1), (109, 2), (112, 1), (129, 2), (131, 1)];
    for (at, byte) in spoiled {
        accounts[3].data = good.clone();
        accounts[3].data[at] = byte;
        assert!(TokenAccount::unpack(&accounts[3].data).is_err());
        let before = accounts.clone();
        assert_eq!(
            Processor::process_exchange(&mut accounts, 100, &program_id()),
            Err(EscrowError::InvalidAccountData)
        );
        assert_eq!(accounts, before);
    }
    accounts[3].data = good[..164].to_vec();
    assert_eq!(
        Processor::process_exchange(&mut accounts, 100, &program_id()),
        Err(EscrowError::InvalidAccountData)
    );
}

#[test]
fn exchange_reads_the_balance_of_any_asset_account_in_use() {
    let mut accounts = opened_escrow(50);
    let holder = authority().0;
    accounts[3].data = token_data(MINT_X, holder, 0x0102_0304_0506_0708, AccountState::Frozen);
    assert!(Processor::check_exchange(&accounts, 0x0102_0304_0506_0708, &program_id()).is_ok());
    let account = TokenAccount {
        mint: Pubkey::new_from_array([MINT_X; 32]),
        owner: Pubkey::new_from_array(holder.bytes),
        amount: 7,
        delegate: COption::Some(Pubkey::new_from_array([5; 32])),
        state: AccountState::Initialized,
        is_native: COption::Some(9),
        delegated_amount: 3,
        close_authority: COption::Some(Pubkey::new_from_array([6; 32])),
    };
    TokenAccount::pack(account, &mut accounts[3].data).unwrap();
    assert_eq!(
        Processor::check_exchange(&accounts, 7, &program_id()).map(|plan| plan.release.amount),
        Ok(7)
    );
    assert_eq!(
        Processor::check_exchange(&accounts, 9, &program_id()),
        Err(EscrowError::AmountMismatch)
    );
}

#[test]
fn exchange_refuses_an_amount_that_is_not_the_balance() {
    for amount in [99u64, 101, 0, 50, u64::MAX] {
        let mut accounts = opened_escrow(50);
        let before = accounts.clone();
        assert_eq!(
            Processor::process_exchange(&mut accounts, amount, &program_id()),
            Err(EscrowError::AmountMismatch)
        );
        assert_eq!(accounts, before);
    }
}

#[test]
fn exchange_refuses_storage_without_a_record() {
    let mut accounts = opened_escrow(50);
    accounts[6].data = vec![0; 105];
    assert_eq!(
        Processor::process_exchange(&mut accounts, 100, &program_id()),
        Err(EscrowError::UninitializedAccount)
    );
    accounts[6].data = vec![];
    assert_eq!(
        Processor::process_exchange(&mut accounts, 100, &program_id()),
        Err(EscrowError::InvalidAccountData)
    );
}

#[test]
fn exchange_refuses_another_custody_account() {
    let mut accounts = opened_escrow(50);
    accounts[3].key = id(90);
    let before = accounts.clone();
    assert_eq!(
        Processor::process_exchange(&mut accounts, 100, &program_id()),
        Err(EscrowError::InvalidAccountData)
    );
    assert_eq!(accounts, before);
}

#[test]
fn exchange_refuses_another_initializer() {
    let mut accounts = opened_escrow(50);
    accounts[4].key = id(91);
    let before = accounts.clone();
    assert_eq!(
        Processor::process_exchange(&mut accounts, 100, &program_id()),
        Err(EscrowError::InvalidAccountData)
    );
    assert_eq!(accounts, before);
}

#[test]
fn exchange_refuses_another_receive_account() {
    let mut accounts = opened_escrow(50);
    accounts[5].key = id(92);
    let before = accounts.clone();
    assert_eq!(
        Processor::process_exchange(&mut accounts, 100, &program_id()),
        Err(EscrowError::InvalidAccountData)
    );
    assert_eq!(accounts, before);
}

#[test]
fn exchange_refuses_another_ledger_program() {
    let mut accounts = opened_escrow(50);
    accounts[7].key = id(93);
    let before = accounts.clone();
    assert_eq!(
        Processor::process_exchange(&mut accounts, 100, &program_id()),
        Err(EscrowError::WrongAssetProgram)
    );
    assert_eq!(accounts, before);
}

#[test]
fn exchange_reports_what_the_ledger_refuses() {
    // Bob holds 49 of Y and owes 50.
    let mut accounts = opened_escrow(49);
    let before = accounts.clone();
    assert_eq!(
        Processor::process_exchange(&mut accounts, 100, &program_id()),
        Err(EscrowError::Ledger(ProgramError::Custom(1)))
    );
    assert_eq!(accounts[6], before[6]);
    assert_eq!(token_amount(&accounts[3]), 100);
}

#[test]
fn exchange_under_another_program_cannot_release_the_deposit() {
    let mut accounts = opened_escrow(50);
    let other = AccountId::new([8; 32]);
    accounts[8].key = derive_authority(&other).unwrap().0;
    let before = accounts.clone();
    let r = Processor::process_exchange(&mut accounts, 100, &other);
    assert!(matches!(r, Err(EscrowError::Ledger(_))));
    assert_eq!(token_amount(&accounts[3]), 100);
    assert_eq!(accounts[6], before[6]);
}

#[test]
fn exchange_guards_the_credit_against_overflow() {
    let mut accounts = opened_escrow(50);
    accounts[4].lamports = u64::MAX - TOKEN_RESERVE - RECORD_RESERVE + 1;
    let before = accounts.clone();
    assert_eq!(
        Processor::process_exchange(&mut accounts, 100, &program_id()),
        Err(EscrowError::AmountOverflow)
    );
    // Nothing of the record's reserve was credited, and the record stands.
    assert_eq!(accounts[6], before[6]);
    assert_eq!(accounts[4].lamports, u64::MAX - RECORD_RESERVE + 1);
    assert_eq!(Escrow::unpack(&accounts[6].data), Ok(expected_record(50)));
}

#[test]
fn close_escrow_account_credits_the_initializer() {
    let mut accounts = opened_escrow(50);
    let before = accounts.clone();
    assert_eq!(Processor::close_escrow_account(&mut accounts), Ok(()));
    assert_eq!(accounts[4].lamports, 5_000_000 + RECORD_RESERVE);
    assert_eq!(accounts[6].lamports, 0);
    assert_eq!(accounts[6].data, vec![0u8; 105]);
    assert_eq!(accounts[6].key, before[6].key);
    assert_eq!(accounts[6].owner, before[6].owner);
    for i in [0usize, 1, 2, 3, 5, 7, 8] {
        assert_eq!(accounts[i], before[i]);
    }
}

#[test]
fn close_escrow_account_fails_on_overflow_and_changes_nothing() {
    let mut accounts = opened_escrow(50);
    accounts[4].lamports = u64::MAX - RECORD_RESERVE + 1;
    let before = accounts.clone();
    assert_eq!(Processor::close_escrow_account(&mut accounts), Err(EscrowError::AmountOverflow));
    assert_eq!(accounts, before);
    accounts[4].lamports = u64::MAX - RECORD_RESERVE;
    assert_eq!(Processor::close_escrow_account(&mut accounts), Ok(()));
    assert_eq!(accounts[4].lamports, u64::MAX);
}
