//! The two handlers of the escrow and the dispatcher in front of them.
//!
//! Roles are bound to accounts by position. Opening an escrow takes, in this
//! order: the initializer, the custody account that holds the deposit, the
//! account on which the initializer wants to be paid, the record storage, the
//! host's rent account, and the ledger program. Fulfilling one takes: the
//! taker, the account the taker pays from, the account the taker receives on,
//! the custody account, the initializer, the account the initializer is paid
//! on, the record storage, the ledger program, and the delegated authority.
//!
//! A handler first checks everything it can check without changing anything.
//! Only then does it write and call the ledger. The host commits all of an
//! instruction or nothing, so the handlers undo nothing themselves.

use vstd::prelude::*;
use crate::account::{models, Account, AccountId, AccountModel};
use crate::authority::{delegated_authority, derive_authority, seed_bytes};
use crate::error::EscrowError;
use crate::instruction::{parse_instruction, EscrowInstruction};
use crate::ledger::{
    close_account_instruction, invoke, invoke_signed, ledger_frame, ledger_program,
    ledger_program_id, rent_exempt, rent_from_account, rent_is_exempt,
    rent_lamports_per_byte_year, rent_rate, rent_schedule, set_authority_instruction,
    token_account_amount, token_balance, transfer_instruction, AuthorityKind, CloseAccount,
    CloseAccountView, SetAuthority, SetAuthorityView, Transfer, TransferView,
};
use crate::state::{parse_record, record_bytes, Escrow, EscrowView};
use solana_program::rent::Rent;

verus! {

/// What opening an escrow writes and asks of the ledger: the record, and the
/// handing over of the custody account to the delegated authority.
#[derive(Clone, Copy, Debug, PartialEq, Eq)]
pub struct Opening {
    pub record: Escrow,
    pub custody: SetAuthority,
}

/// The mathematical value of an `Opening`.
pub struct OpeningView {
    pub record: EscrowView,
    pub custody: SetAuthorityView,
}

impl View for Opening {
    type V = OpeningView;

    open spec fn view(&self) -> OpeningView {
        OpeningView { record: self.record@, custody: self.custody@ }
    }
}

/// Whether the reserve for storage of `data_len` bytes can be computed in
/// 64 bits at `rate` per byte and year: the host adds 128 bytes of overhead
/// to the size and multiplies by the rate.
pub open spec fn reserve_in_range(rate: u64, data_len: nat) -> bool {
    data_len + 128 <= u64::MAX && (data_len + 128) * rate <= u64::MAX
}

/// How the check of the reserve ends, given the rate of the rent schedule
/// and the host's answer to whether the storage is exempt.
pub open spec fn rent_verdict(rate: u64, exempt: bool, data_len: nat) -> Result<(), EscrowError> {
    if !reserve_in_range(rate, data_len) {
        Err(EscrowError::RentOutOfRange)
    } else if !exempt {
        Err(EscrowError::NotRentExempt)
    } else {
        Ok(())
    }
}

/// How the check of the reserve ends for storage of `data_len` bytes with
/// balance `lamports`, given what was read from the rent account.
pub open spec fn rent_check(rent: Option<Rent>, lamports: u64, data_len: nat) -> Result<
    (),
    EscrowError,
> {
    match rent {
        None => Err(EscrowError::InvalidRent),
        Some(rent) => rent_verdict(
            rent_rate(rent),
            rent_exempt(rent, lamports, data_len as usize),
            data_len,
        ),
    }
}

/// The mathematical value of a derived authority, where one was found.
pub open spec fn authority_view(authority: Option<(AccountId, u8)>) -> Option<(Seq<u8>, u8)> {
    match authority {
        Some((id, bump_seed)) => Some((id@, bump_seed)),
        None => None,
    }
}

/// What the checks of an opening decide, in the order in which they are made,
/// given how the check of the reserve ended and the delegated authority: the
/// error of the first check that fails, or what is to be written and asked
/// of the ledger.
pub open spec fn init_plan_given(
    s: Seq<AccountModel>,
    amount: u64,
    rent: Result<(), EscrowError>,
    authority: Option<(Seq<u8>, u8)>,
) -> Result<OpeningView, EscrowError> {
    if s.len() < 6 {
        Err(EscrowError::NotEnoughAccounts)
    } else if !s[0].is_signer {
        Err(EscrowError::MissingSignature)
    } else if s[2].owner != ledger_program_id() {
        Err(EscrowError::WrongAssetProgram)
    } else if rent is Err {
        Err(rent->Err_0)
    } else if parse_record(s[3].data) is None {
        Err(EscrowError::InvalidAccountData)
    } else if parse_record(s[3].data).unwrap().is_initialized {
        Err(EscrowError::AlreadyInitialized)
    } else if authority is None {
        Err(EscrowError::AuthorityNotFound)
    } else if s[5].key != ledger_program_id() {
        Err(EscrowError::WrongAssetProgram)
    } else {
        Ok(
            OpeningView {
                record: EscrowView {
                    is_initialized: true,
                    initializer_pubkey: s[0].key,
                    temp_token_account_pubkey: s[1].key,
                    initializer_token_to_receive_account_pubkey: s[2].key,
                    expected_amount: amount,
                },
                custody: SetAuthorityView {
                    account: s[1].key,
                    new_authority: authority.unwrap().0,
                    kind: AuthorityKind::AccountOwner,
                    current_authority: s[0].key,
                },
            },
        )
    }
}

/// What the checks of an opening decide under a program identity: the rent
/// account is at position 4, the record storage at position 3.
pub open spec fn init_plan(s: Seq<AccountModel>, amount: u64, program: Seq<u8>) -> Result<
    OpeningView,
    EscrowError,
> {
    init_plan_given(
        s,
        amount,
        rent_check(rent_schedule(s[4].key, s[4].data), s[3].lamports, s[3].data.len()),
        delegated_authority(program),
    )
}

/// The accounts with `record` written over the record storage (position 3).
pub open spec fn recorded(s: Seq<AccountModel>, record: EscrowView) -> Seq<AccountModel>
    recommends
        s.len() >= 4,
{
    s.update(3, AccountModel { data: record_bytes(record), ..s[3] })
}

/// The accounts that the call for custody is handed: the custody account,
/// the initializer and the ledger program.
pub open spec fn custody_picks() -> Seq<usize> {
    seq![1usize, 0usize, 5usize]
}

/// What opening an escrow leaves behind. Where a check fails, its error and
/// no change. Otherwise the record is written and the ledger has been asked
/// to hand over custody; only the ledger can still refuse.
pub open spec fn init_post(
    before: Seq<AccountModel>,
    amount: u64,
    program: Seq<u8>,
    r: Result<(), EscrowError>,
    after: Seq<AccountModel>,
) -> bool {
    match init_plan(before, amount, program) {
        Err(e) => r == Err::<(), EscrowError>(e) && after == before,
        Ok(plan) => ledger_frame(recorded(before, plan.record), after, custody_picks()) && (r
            is Err ==> r matches Err(EscrowError::Ledger(_))),
    }
}

/// The three calls into the ledger that settle an exchange, and the
/// discriminator byte that signs the last two.
#[derive(Clone, Copy, Debug, PartialEq, Eq)]
pub struct Settlement {
    /// The taker pays the initializer the expected amount.
    pub payment: Transfer,
    /// The delegated authority releases the whole deposit to the taker.
    pub release: Transfer,
    /// The delegated authority closes the custody account; its reserve goes
    /// to the initializer.
    pub closing: CloseAccount,
    pub bump_seed: u8,
}

/// The mathematical value of a `Settlement`.
pub struct SettlementView {
    pub payment: TransferView,
    pub release: TransferView,
    pub closing: CloseAccountView,
    pub bump_seed: u8,
}

impl View for Settlement {
    type V = SettlementView;

    open spec fn view(&self) -> SettlementView {
        SettlementView {
            payment: self.payment@,
            release: self.release@,
            closing: self.closing@,
            bump_seed: self.bump_seed,
        }
    }
}

/// What the checks of an exchange decide, in the order in which they are
/// made, given the delegated authority: the error of the first check that
/// fails, or the settlement.
pub open spec fn exchange_plan_given(
    s: Seq<AccountModel>,
    amount: u64,
    authority: Option<(Seq<u8>, u8)>,
) -> Result<SettlementView, EscrowError> {
    if s.len() < 9 {
        Err(EscrowError::NotEnoughAccounts)
    } else if !s[0].is_signer {
        Err(EscrowError::MissingSignature)
    } else if token_balance(s[3].data) is None {
        Err(EscrowError::InvalidAccountData)
    } else if amount != token_balance(s[3].data).unwrap() {
        Err(EscrowError::AmountMismatch)
    } else if parse_record(s[6].data) is None {
        Err(EscrowError::InvalidAccountData)
    } else if !parse_record(s[6].data).unwrap().is_initialized {
        Err(EscrowError::UninitializedAccount)
    } else if parse_record(s[6].data).unwrap().temp_token_account_pubkey != s[3].key {
        Err(EscrowError::InvalidAccountData)
    } else if parse_record(s[6].data).unwrap().initializer_pubkey != s[4].key {
        Err(EscrowError::InvalidAccountData)
    } else if parse_record(s[6].data).unwrap().initializer_token_to_receive_account_pubkey
        != s[5].key {
        Err(EscrowError::InvalidAccountData)
    } else if s[7].key != ledger_program_id() {
        Err(EscrowError::WrongAssetProgram)
    } else if authority is None {
        Err(EscrowError::AuthorityNotFound)
    } else {
        let (authority, bump_seed) = authority.unwrap();
        Ok(
            SettlementView {
                payment: TransferView {
                    source: s[1].key,
                    destination: s[5].key,
                    authority: s[0].key,
                    amount: parse_record(s[6].data).unwrap().expected_amount,
                },
                release: TransferView {
                    source: s[3].key,
                    destination: s[2].key,
                    authority,
                    amount: token_balance(s[3].data).unwrap(),
                },
                closing: CloseAccountView { account: s[3].key, refund_to: s[4].key, authority },
                bump_seed,
            },
        )
    }
}

/// What the checks of an exchange decide under a program identity.
pub open spec fn exchange_plan(s: Seq<AccountModel>, amount: u64, program: Seq<u8>) -> Result<
    SettlementView,
    EscrowError,
> {
    exchange_plan_given(s, amount, delegated_authority(program))
}

/// The accounts that the three calls of a settlement are handed, taken
/// together: all roles but the record storage.
pub open spec fn settlement_picks() -> Seq<usize> {
    seq![0usize, 1usize, 2usize, 3usize, 4usize, 5usize, 7usize, 8usize]
}

/// Storage of `n` bytes, all zero.
pub open spec fn zeros(n: nat) -> Seq<u8> {
    Seq::new(n, |i: int| 0u8)
}

/// Retiring the record once the ledger has settled: the initializer is
/// credited the reserve of the record storage, and the storage is left with
/// no balance and with all its bytes zero. Where the credit would exceed the
/// largest balance, nothing is credited.
pub open spec fn retired(s: Seq<AccountModel>) -> Result<Seq<AccountModel>, EscrowError> {
    if s.len() < 7 {
        Err(EscrowError::NotEnoughAccounts)
    } else if s[4].lamports + s[6].lamports > u64::MAX {
        Err(EscrowError::AmountOverflow)
    } else {
        Ok(
            s.update(
                4,
                AccountModel { lamports: (s[4].lamports + s[6].lamports) as u64, ..s[4] },
            ).update(
                6,
                AccountModel { lamports: 0, data: zeros(s[6].data.len()), ..s[6] },
            ),
        )
    }
}

/// What an exchange leaves behind. Where a check fails, its error and no
/// change. Otherwise the ledger has been called, and there is a state in
/// which it left the accounts, the same as before in all that no call may
/// touch. If the ledger refused a call, that state is the result; if not,
/// the record is retired from it.
pub open spec fn exchange_post(
    before: Seq<AccountModel>,
    amount: u64,
    program: Seq<u8>,
    r: Result<(), EscrowError>,
    after: Seq<AccountModel>,
) -> bool {
    match exchange_plan(before, amount, program) {
        Err(e) => r == Err::<(), EscrowError>(e) && after == before,
        Ok(_) => exists|settled: Seq<AccountModel>| #[trigger]
            ledger_frame(before, settled, settlement_picks()) && match r {
                Err(EscrowError::Ledger(_)) => after == settled,
                _ => match retired(settled) {
                    Ok(closed) => r is Ok && after == closed,
                    Err(e) => r == Err::<(), EscrowError>(e) && after == settled,
                },
            },
    }
}

/// The accounts that a call may change can always be named more generously.
pub proof fn lemma_frame_widens(
    before: Seq<AccountModel>,
    after: Seq<AccountModel>,
    picks: Seq<usize>,
    wider: Seq<usize>,
)
    requires
        ledger_frame(before, after, picks),
        forall|i: usize| picks.contains(i) ==> wider.contains(i),
    ensures
        ledger_frame(before, after, wider),
{
}

/// Two calls in a row leave as it was what each of them leaves as it was.
pub proof fn lemma_frame_chains(
    first: Seq<AccountModel>,
    second: Seq<AccountModel>,
    third: Seq<AccountModel>,
    picks: Seq<usize>,
)
    requires
        ledger_frame(first, second, picks),
        ledger_frame(second, third, picks),
    ensures
        ledger_frame(first, third, picks),
{
    assert forall|i: int| 0 <= i < first.len() implies (#[trigger] third[i]) == (AccountModel {
        owner: third[i].owner,
        lamports: third[i].lamports,
        data: third[i].data,
        ..first[i]
    }) by {
        assert(second[i] == (AccountModel {
            owner: second[i].owner,
            lamports: second[i].lamports,
            data: second[i].data,
            ..first[i]
        }));
    }
    assert forall|i: int|
        0 <= i < first.len() && !picks.contains(i as usize) implies (#[trigger] third[i])
        == first[i] by {
        assert(second[i] == first[i]);
    }
}

/// Sets every byte of `v` to zero.
fn zero_fill(v: &mut Vec<u8>)
    ensures
        final(v)@ == zeros(old(v)@.len()),
{
    let n = v.len();
    let mut i: usize = 0;
    while i < n
        invariant
            v@.len() == n,
            i <= n,
            forall|j: int| 0 <= j < i ==> v@[j] == 0u8,
        decreases n - i,
    {
        v[i] = 0;
        i += 1;
    }
    assert(v@ =~= zeros(n as nat));
}

/// The handlers of the escrow's instructions.
pub struct Processor;

impl Processor {
    /// Decodes an instruction and hands it to its handler.
    pub fn process(
        program_id: &AccountId,
        accounts: &mut Vec<Account>,
        instruction_data: &[u8],
    ) -> (r: Result<(), EscrowError>)
        ensures
            match parse_instruction(instruction_data@) {
                None => r == Err::<(), EscrowError>(EscrowError::InvalidInstruction) && models(
                    final(accounts)@,
                ) == models(old(accounts)@),
                Some(EscrowInstruction::InitEscrow { amount }) => init_post(
                    models(old(accounts)@),
                    amount,
                    program_id@,
                    r,
                    models(final(accounts)@),
                ),
                Some(EscrowInstruction::Exchange { amount }) => exchange_post(
                    models(old(accounts)@),
                    amount,
                    program_id@,
                    r,
                    models(final(accounts)@),
                ),
            },
    {
        let instruction = match EscrowInstruction::unpack(instruction_data) {
            Ok(instruction) => instruction,
            Err(e) => {
                return Err(e);
            },
        };
        match instruction {
            EscrowInstruction::InitEscrow { amount } => Processor::process_init_escrow(
                accounts,
                amount,
                program_id,
            ),
            EscrowInstruction::Exchange { amount } => Processor::process_exchange(
                accounts,
                amount,
                program_id,
            ),
        }
    }

    /// Opens an escrow. The initializer must have signed, the account to be
    /// paid on must belong to the ledger program, and the record storage
    /// must meet its reserve and hold no record yet. Then the record is
    /// written, and the ledger is asked to hand the custody account over
    /// from the initializer to the delegated authority. No asset moves.
    pub fn process_init_escrow(
        accounts: &mut Vec<Account>,
        amount: u64,
        program_id: &AccountId,
    ) -> (r: Result<(), EscrowError>)
        ensures
            init_post(models(old(accounts)@), amount, program_id@, r, models(final(accounts)@)),
    {
        let plan = match Processor::check_init_escrow(accounts, amount, program_id) {
            Ok(plan) => plan,
            Err(e) => {
                return Err(e);
            },
        };
        let token_program = accounts[5].key;
        proof {
            let s = models(accounts@);
            assert(s[5] == accounts@[5]@ && s[3] == accounts@[3]@);
        }
        let owner_change_ix = match set_authority_instruction(&token_program, &plan.custody) {
            Ok(ix) => ix,
            Err(e) => {
                return Err(EscrowError::Ledger(e));
            },
        };
        Escrow::pack(plan.record, &mut accounts[3].data)?;
        assert(models(accounts@) =~= recorded(models(old(accounts)@), plan.record@));
        let custody_accounts: [usize; 3] = [1, 0, 5];
        assert(custody_accounts@ =~= custody_picks());
        match invoke(&owner_change_ix, accounts, custody_accounts.as_slice()) {
            Ok(()) => Ok(()),
            Err(e) => Err(EscrowError::Ledger(e)),
        }
    }

    /// Checks the opening of an escrow without changing anything, and works
    /// out what is to be written and asked of the ledger. The reserve is
    /// checked against the rent account, and the authority is derived from
    /// the program identity.
    pub fn check_init_escrow(
        accounts: &Vec<Account>,
        amount: u64,
        program_id: &AccountId,
    ) -> (r: Result<Opening, EscrowError>)
        ensures
            match init_plan(models(accounts@), amount, program_id@) {
                Ok(plan) => r is Ok && r.unwrap()@ == plan,
                Err(e) => r == Err::<Opening, EscrowError>(e),
            },
    {
        if accounts.len() < 6 {
            return Err(EscrowError::NotEnoughAccounts);
        }
        proof {
            let s = models(accounts@);
            assert(s[3] == accounts@[3]@ && s[4] == accounts@[4]@);
        }
        let escrow_account = &accounts[3];
        let rent = Processor::check_rent_account(
            &accounts[4],
            escrow_account.lamports,
            escrow_account.data.len(),
        );
        let authority = derive_authority(program_id);
        Processor::plan_init_escrow(accounts, amount, rent, authority)
    }

    /// The checks of an opening, given how the check of the reserve ended
    /// and the delegated authority.
    pub fn plan_init_escrow(
        accounts: &Vec<Account>,
        amount: u64,
        rent: Result<(), EscrowError>,
        authority: Option<(AccountId, u8)>,
    ) -> (r: Result<Opening, EscrowError>)
        ensures
            match init_plan_given(models(accounts@), amount, rent, authority_view(authority)) {
                Ok(plan) => r is Ok && r.unwrap()@ == plan,
                Err(e) => r == Err::<Opening, EscrowError>(e),
            },
    {
        if accounts.len() < 6 {
            return Err(EscrowError::NotEnoughAccounts);
        }
        let initializer = &accounts[0];
        let temp_token_account = &accounts[1];
        let token_to_receive_account = &accounts[2];
        let escrow_account = &accounts[3];
        let token_program = &accounts[5];
        proof {
            let s = models(accounts@);
            assert(s[0] == accounts@[0]@ && s[1] == accounts@[1]@ && s[2] == accounts@[2]@);
            assert(s[3] == accounts@[3]@ && s[5] == accounts@[5]@);
        }
        if !initializer.is_signer {
            return Err(EscrowError::MissingSignature);
        }
        let ledger = ledger_program();
        if !token_to_receive_account.owner.same_as(&ledger) {
            return Err(EscrowError::WrongAssetProgram);
        }
        if let Err(e) = rent {
            return Err(e);
        }
        let escrow_info = Escrow::unpack_unchecked(escrow_account.data.as_slice())?;
        if escrow_info.is_initialized {
            return Err(EscrowError::AlreadyInitialized);
        }
        let (pda, _bump_seed) = match authority {
            Some(found) => found,
            None => {
                return Err(EscrowError::AuthorityNotFound);
            },
        };
        if !token_program.key.same_as(&ledger) {
            return Err(EscrowError::WrongAssetProgram);
        }
        Ok(
            Opening {
                record: Escrow {
                    is_initialized: true,
                    initializer_pubkey: initializer.key,
                    temp_token_account_pubkey: temp_token_account.key,
                    initializer_token_to_receive_account_pubkey: token_to_receive_account.key,
                    expected_amount: amount,
                },
                custody: SetAuthority {
                    account: temp_token_account.key,
                    new_authority: pda,
                    kind: AuthorityKind::AccountOwner,
                    current_authority: initializer.key,
                },
            },
        )
    }

    /// Whether storage of `data_len` bytes with balance `lamports` meets the
    /// reserve that the schedule in `rent_account` asks for.
    pub fn check_rent_account(rent_account: &Account, lamports: u64, data_len: usize) -> (r:
        Result<(), EscrowError>)
        ensures
            r == rent_check(
                rent_schedule(rent_account.key@, rent_account.data@),
                lamports,
                data_len as nat,
            ),
    {
        match rent_from_account(rent_account) {
            Ok(rent) => Processor::check_rent(&rent, lamports, data_len),
            Err(_) => Err(EscrowError::InvalidRent),
        }
    }

    /// Whether storage of `data_len` bytes with balance `lamports` meets the
    /// reserve that `rent` asks for. The host is asked only where the reserve
    /// can be computed in 64 bits.
    pub fn check_rent(rent: &Rent, lamports: u64, data_len: usize) -> (r: Result<(), EscrowError>)
        ensures
            r == rent_verdict(
                rent_rate(*rent),
                rent_exempt(*rent, lamports, data_len),
                data_len as nat,
            ),
    {
        let rate = rent_lamports_per_byte_year(rent);
        if !Processor::reserve_fits(rate, data_len) {
            return Err(EscrowError::RentOutOfRange);
        }
        if !rent_is_exempt(rent, lamports, data_len) {
            return Err(EscrowError::NotRentExempt);
        }
        Ok(())
    }

    /// Whether the reserve for storage of `data_len` bytes can be computed in
    /// 64 bits at `rate` per byte and year.
    pub fn reserve_fits(rate: u64, data_len: usize) -> (fits: bool)
        ensures
            fits == reserve_in_range(rate, data_len as nat),
    {
        let size: u64 = data_len as u64;
        match size.checked_add(128) {
            Some(total) => total.checked_mul(rate).is_some(),
            None => false,
        }
    }

    /// Fulfils an escrow. The taker must have signed, the amount must be the
    /// balance of the custody account, and the custody account, the
    /// initializer and the account the initializer is paid on must be those
    /// that the record names. Then the taker pays the initializer the
    /// expected amount, the delegated authority releases the deposit to the
    /// taker and closes the custody account, and the record is retired.
    pub fn process_exchange(
        accounts: &mut Vec<Account>,
        amount: u64,
        program_id: &AccountId,
    ) -> (r: Result<(), EscrowError>)
        ensures
            exchange_post(
                models(old(accounts)@),
                amount,
                program_id@,
                r,
                models(final(accounts)@),
            ),
    {
        let plan = match Processor::check_exchange(accounts, amount, program_id) {
            Ok(plan) => plan,
            Err(e) => {
                return Err(e);
            },
        };
        proof {
            let s = models(accounts@);
            assert(s[7] == accounts@[7]@);
        }
        let settled = Processor::settle(accounts, &plan);
        let ghost after_ledger = models(accounts@);
        assert(ledger_frame(models(old(accounts)@), after_ledger, settlement_picks()));
        if let Err(e) = settled {
            return Err(e);
        }
        Processor::close_escrow_account(accounts)
    }

    /// Checks an exchange without changing anything, and works out the calls
    /// that settle it. The authority is derived from the program identity.
    pub fn check_exchange(
        accounts: &Vec<Account>,
        amount: u64,
        program_id: &AccountId,
    ) -> (r: Result<Settlement, EscrowError>)
        ensures
            match exchange_plan(models(accounts@), amount, program_id@) {
                Ok(plan) => r is Ok && r.unwrap()@ == plan,
                Err(e) => r == Err::<Settlement, EscrowError>(e),
            },
    {
        Processor::plan_exchange(accounts, amount, derive_authority(program_id))
    }

    /// The checks of an exchange, given the delegated authority.
    pub fn plan_exchange(
        accounts: &Vec<Account>,
        amount: u64,
        authority: Option<(AccountId, u8)>,
    ) -> (r: Result<Settlement, EscrowError>)
        ensures
            match exchange_plan_given(models(accounts@), amount, authority_view(authority)) {
                Ok(plan) => r is Ok && r.unwrap()@ == plan,
                Err(e) => r == Err::<Settlement, EscrowError>(e),
            },
    {
        if accounts.len() < 9 {
            return Err(EscrowError::NotEnoughAccounts);
        }
        let taker = &accounts[0];
        let taker_token_to_send_account = &accounts[1];
        let taker_token_to_receive_account = &accounts[2];
        let pda_temp_token_account = &accounts[3];
        let initializer_account = &accounts[4];
        let initializer_token_to_receive_account = &accounts[5];
        let escrow_account = &accounts[6];
        let token_program = &accounts[7];
        proof {
            let s = models(accounts@);
            assert(s[0] == accounts@[0]@ && s[1] == accounts@[1]@ && s[2] == accounts@[2]@);
            assert(s[3] == accounts@[3]@ && s[4] == accounts@[4]@ && s[5] == accounts@[5]@);
            assert(s[6] == accounts@[6]@ && s[7] == accounts@[7]@);
        }
        if !taker.is_signer {
            return Err(EscrowError::MissingSignature);
        }
        let balance = match token_account_amount(pda_temp_token_account.data.as_slice()) {
            Ok(balance) => balance,
            Err(_) => {
                return Err(EscrowError::InvalidAccountData);
            },
        };
        if amount != balance {
            return Err(EscrowError::AmountMismatch);
        }
        let escrow_info = Escrow::unpack(escrow_account.data.as_slice())?;
        if !escrow_info.temp_token_account_pubkey.same_as(&pda_temp_token_account.key) {
            return Err(EscrowError::InvalidAccountData);
        }
        if !escrow_info.initializer_pubkey.same_as(&initializer_account.key) {
            return Err(EscrowError::InvalidAccountData);
        }
        if !escrow_info.initializer_token_to_receive_account_pubkey.same_as(
            &initializer_token_to_receive_account.key,
        ) {
            return Err(EscrowError::InvalidAccountData);
        }
        if !token_program.key.same_as(&ledger_program()) {
            return Err(EscrowError::WrongAssetProgram);
        }
        let (pda, bump_seed) = match authority {
            Some(found) => found,
            None => {
                return Err(EscrowError::AuthorityNotFound);
            },
        };
        Ok(
            Settlement {
                payment: Transfer {
                    source: taker_token_to_send_account.key,
                    destination: initializer_token_to_receive_account.key,
                    authority: taker.key,
                    amount: escrow_info.expected_amount,
                },
                release: Transfer {
                    source: pda_temp_token_account.key,
                    destination: taker_token_to_receive_account.key,
                    authority: pda,
                    amount: balance,
                },
                closing: CloseAccount {
                    account: pda_temp_token_account.key,
                    refund_to: initializer_account.key,
                    authority: pda,
                },
                bump_seed,
            },
        )
    }

    /// Makes the three calls of a settlement in order and stops at the first
    /// that the ledger refuses.
    fn settle(accounts: &mut Vec<Account>, plan: &Settlement) -> (r: Result<(), EscrowError>)
        requires
            old(accounts)@.len() >= 9,
            old(accounts)@[7].key@ == ledger_program_id(),
        ensures
            ledger_frame(models(old(accounts)@), models(final(accounts)@), settlement_picks()),
            r is Err ==> r matches Err(EscrowError::Ledger(_)),
    {
        let token_program = accounts[7].key;
        let seed = seed_bytes();
        let ghost before = models(accounts@);
        let ghost wide = settlement_picks();
        assert(wide[0] == 0 && wide[1] == 1 && wide[2] == 2 && wide[3] == 3 && wide[4] == 4
            && wide[5] == 5 && wide[6] == 7 && wide[7] == 8);

        let transfer_to_initializer_ix = match transfer_instruction(
            &token_program,
            &plan.payment,
        ) {
            Ok(ix) => ix,
            Err(e) => {
                return Err(EscrowError::Ledger(e));
            },
        };
        let transfer_to_taker_ix = match transfer_instruction(&token_program, &plan.release) {
            Ok(ix) => ix,
            Err(e) => {
                return Err(EscrowError::Ledger(e));
            },
        };
        let close_pdas_temp_acc_ix = match close_account_instruction(
            &token_program,
            &plan.closing,
        ) {
            Ok(ix) => ix,
            Err(e) => {
                return Err(EscrowError::Ledger(e));
            },
        };

        let payment_accounts: [usize; 4] = [1, 5, 0, 7];
        let paid = invoke(&transfer_to_initializer_ix, accounts, payment_accounts.as_slice());
        proof {
            lemma_frame_widens(before, models(accounts@), payment_accounts@, wide);
        }
        if let Err(e) = paid {
            return Err(EscrowError::Ledger(e));
        }
        let ghost after_payment = models(accounts@);

        let release_accounts: [usize; 4] = [3, 2, 8, 7];
        let released = invoke_signed(
            &transfer_to_taker_ix,
            accounts,
            release_accounts.as_slice(),
            seed.as_slice(),
            plan.bump_seed,
        );
        proof {
            lemma_frame_widens(after_payment, models(accounts@), release_accounts@, wide);
            lemma_frame_chains(before, after_payment, models(accounts@), wide);
        }
        if let Err(e) = released {
            return Err(EscrowError::Ledger(e));
        }
        let ghost after_release = models(accounts@);

        let closing_accounts: [usize; 4] = [3, 4, 8, 7];
        let closed = invoke_signed(
            &close_pdas_temp_acc_ix,
            accounts,
            closing_accounts.as_slice(),
            seed.as_slice(),
            plan.bump_seed,
        );
        proof {
            lemma_frame_widens(after_release, models(accounts@), closing_accounts@, wide);
            lemma_frame_chains(before, after_release, models(accounts@), wide);
        }
        match closed {
            Ok(()) => Ok(()),
            Err(e) => Err(EscrowError::Ledger(e)),
        }
    }

    /// Retires the record of a settled exchange: credits the reserve of the
    /// record storage (position 6) to the initializer (position 4) and leaves
    /// the storage empty of balance and all zero. Where the credit would
    /// exceed the largest balance it fails with `AmountOverflow` and changes
    /// nothing.
    pub fn close_escrow_account(accounts: &mut Vec<Account>) -> (r: Result<(), EscrowError>)
        ensures
            match retired(models(old(accounts)@)) {
                Ok(after) => r is Ok && models(final(accounts)@) == after,
                Err(e) => r == Err::<(), EscrowError>(e) && models(final(accounts)@) == models(
                    old(accounts)@,
                ),
            },
    {
        if accounts.len() < 7 {
            return Err(EscrowError::NotEnoughAccounts);
        }
        let credited = match accounts[4].lamports.checked_add(accounts[6].lamports) {
            Some(credited) => credited,
            None => {
                return Err(EscrowError::AmountOverflow);
            },
        };
        accounts[4].lamports = credited;
        accounts[6].lamports = 0;
        zero_fill(&mut accounts[6].data);
        proof {
            assert(models(accounts@) =~= retired(models(old(accounts)@)).unwrap());
        }
        Ok(())
    }
}

} // verus!
