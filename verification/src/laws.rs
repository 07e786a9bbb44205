//! What holds of the escrow across calls, proved from the handlers' contracts.

use vstd::prelude::*;
use crate::account::{all_wf, AccountModel};
use crate::authority::delegated_authority;
use crate::error::EscrowError;
use crate::ledger::{ledger_frame, ledger_program_id, token_balance};
use crate::processor::{
    custody_picks, exchange_plan, exchange_plan_given, exchange_post, init_plan, init_plan_given,
    init_post, recorded, retired, settlement_picks, zeros, OpeningView, SettlementView,
};
use crate::state::{lemma_parse_of_record_bytes, parse_record, EscrowView};

verus! {

/// Opening is write-once. Once an opening has passed its checks, whatever
/// the ledger then did, a second opening over the accounts it left fails
/// with `AlreadyInitialized`, for any amount and under any program identity,
/// and leaves them as they are: the record still holds the first terms.
pub proof fn lemma_open_is_write_once(
    before: Seq<AccountModel>,
    amount: u64,
    program: Seq<u8>,
    first: Result<(), EscrowError>,
    between: Seq<AccountModel>,
    again: u64,
    again_program: Seq<u8>,
    second: Result<(), EscrowError>,
    after: Seq<AccountModel>,
)
    requires
        all_wf(before),
        init_plan(before, amount, program) is Ok,
        init_post(before, amount, program, first, between),
        init_post(between, again, again_program, second, after),
    ensures
        second == Err::<(), EscrowError>(EscrowError::AlreadyInitialized),
        after == between,
        parse_record(between[3].data) == Some(init_plan(before, amount, program).unwrap().record),
{
    let plan = init_plan(before, amount, program).unwrap();
    let written = recorded(before, plan.record);
    assert(before[0].wf() && before[1].wf() && before[2].wf());
    lemma_parse_of_record_bytes(plan.record);
    assert(!custody_picks().contains(3usize));
    assert(!custody_picks().contains(2usize));
    assert(!custody_picks().contains(4usize));
    assert(between[3] == written[3]);
    assert(between[2] == written[2]);
    assert(between[4] == written[4]);
    assert(between[0].is_signer == written[0].is_signer);
    assert(between[3].data.len() == before[3].data.len());
}

/// No opening passes its checks over record storage that holds a record,
/// whoever asks, whatever the rent check and the authority. Where the
/// initializer has signed, the account to be paid on belongs to the ledger
/// program and the reserve is met, the opening fails with
/// `AlreadyInitialized`.
pub proof fn lemma_initialized_record_is_never_reopened(
    s: Seq<AccountModel>,
    amount: u64,
    rent: Result<(), EscrowError>,
    authority: Option<(Seq<u8>, u8)>,
)
    requires
        parse_record(s[3].data) is Some,
        parse_record(s[3].data).unwrap().is_initialized,
    ensures
        init_plan_given(s, amount, rent, authority) is Err,
        s.len() >= 6 && s[0].is_signer && s[2].owner == ledger_program_id() && rent is Ok
            ==> init_plan_given(s, amount, rent, authority) == Err::<OpeningView, EscrowError>(
            EscrowError::AlreadyInitialized,
        ),
{
}

/// The authority that is given custody when an escrow is opened is the one
/// that releases the deposit and closes the custody account when an escrow
/// of the same program is fulfilled: the delegated authority of the program.
pub proof fn lemma_custody_authority_is_release_authority(
    opened: Seq<AccountModel>,
    price: u64,
    fulfilled: Seq<AccountModel>,
    amount: u64,
    program: Seq<u8>,
)
    requires
        init_plan(opened, price, program) is Ok,
        exchange_plan(fulfilled, amount, program) is Ok,
    ensures
        ({
            let opening = init_plan(opened, price, program).unwrap();
            let settlement = exchange_plan(fulfilled, amount, program).unwrap();
            &&& delegated_authority(program) == Some(
                (opening.custody.new_authority, settlement.bump_seed),
            )
            &&& opening.custody.account == opened[1].key
            &&& opening.custody.current_authority == opened[0].key
            &&& settlement.release.authority == opening.custody.new_authority
            &&& settlement.closing.authority == opening.custody.new_authority
            &&& settlement.release.source == fulfilled[3].key
            &&& settlement.closing.account == fulfilled[3].key
        }),
{
}

/// An exchange passes its checks only if the amount is the balance in
/// custody and the custody account, the initializer and the account the
/// initializer is paid on are the ones that the record names.
pub proof fn lemma_exchange_requires_exact_match(
    s: Seq<AccountModel>,
    amount: u64,
    program: Seq<u8>,
)
    requires
        exchange_plan(s, amount, program) is Ok,
    ensures
        s.len() >= 9,
        s[0].is_signer,
        token_balance(s[3].data) == Some(amount),
        parse_record(s[6].data) is Some,
        ({
            let record = parse_record(s[6].data).unwrap();
            let settlement = exchange_plan(s, amount, program).unwrap();
            &&& record.is_initialized
            &&& record.temp_token_account_pubkey == s[3].key
            &&& record.initializer_pubkey == s[4].key
            &&& record.initializer_token_to_receive_account_pubkey == s[5].key
            &&& settlement.payment.amount == record.expected_amount
            &&& settlement.payment.destination
                == record.initializer_token_to_receive_account_pubkey
            &&& settlement.release.amount == amount
        }),
{
}

/// Where the taker has signed, the amount is the balance in custody and the
/// storage holds an initialized record, an exchange in which the custody
/// account, the initializer or the account the initializer is paid on is not
/// the one the record names fails with `InvalidAccountData`.
pub proof fn lemma_mismatch_is_invalid_account_data(
    s: Seq<AccountModel>,
    amount: u64,
    program: Seq<u8>,
)
    requires
        s.len() >= 9,
        s[0].is_signer,
        token_balance(s[3].data) == Some(amount),
        parse_record(s[6].data) is Some,
        parse_record(s[6].data).unwrap().is_initialized,
        parse_record(s[6].data).unwrap().temp_token_account_pubkey != s[3].key || parse_record(
            s[6].data,
        ).unwrap().initializer_pubkey != s[4].key || parse_record(
            s[6].data,
        ).unwrap().initializer_token_to_receive_account_pubkey != s[5].key,
    ensures
        exchange_plan(s, amount, program) == Err::<SettlementView, EscrowError>(
            EscrowError::InvalidAccountData,
        ),
{
}

/// Where the taker has signed and the custody account is an asset account in
/// use, an exchange that claims any amount but its balance fails with
/// `AmountMismatch`.
pub proof fn lemma_amount_must_be_balance(s: Seq<AccountModel>, amount: u64, program: Seq<u8>)
    requires
        s.len() >= 9,
        s[0].is_signer,
        token_balance(s[3].data) is Some,
        token_balance(s[3].data) != Some(amount),
    ensures
        exchange_plan(s, amount, program) == Err::<SettlementView, EscrowError>(
            EscrowError::AmountMismatch,
        ),
{
}

/// An exchange that succeeded leaves the record storage without balance and
/// all zero, and no exchange over the accounts it left, for any amount and
/// under any program identity, can succeed or change anything again.
pub proof fn lemma_exchange_is_final(
    before: Seq<AccountModel>,
    amount: u64,
    program: Seq<u8>,
    between: Seq<AccountModel>,
    again: u64,
    again_program: Seq<u8>,
    second: Result<(), EscrowError>,
    after: Seq<AccountModel>,
)
    requires
        exchange_post(before, amount, program, Ok(()), between),
        exchange_post(between, again, again_program, second, after),
    ensures
        between[6].lamports == 0,
        between[6].data == zeros(before[6].data.len()),
        exchange_plan(between, again, again_program) is Err,
        second is Err,
        after == between,
{
    assert(exchange_plan(before, amount, program) is Ok);
    let settled = choose|settled: Seq<AccountModel>| #[trigger]
        ledger_frame(before, settled, settlement_picks()) && retired(settled) == Ok::<
            Seq<AccountModel>,
            EscrowError,
        >(between);
    assert(!settlement_picks().contains(6usize));
    assert(settled[6] == before[6]);
    let storage = between[6].data;
    assert(storage == zeros(before[6].data.len()));
    if storage.len() == 105 {
        assert(storage[0] == 0);
    }
}

/// No exchange passes its checks over record storage that is all zero,
/// whoever asks and whatever the authority.
pub proof fn lemma_retired_record_refuses_exchange(
    s: Seq<AccountModel>,
    amount: u64,
    authority: Option<(Seq<u8>, u8)>,
)
    requires
        s[6].data == zeros(s[6].data.len()),
    ensures
        exchange_plan_given(s, amount, authority) is Err,
{
    if s[6].data.len() == 105 {
        assert(s[6].data[0] == 0);
    }
}

/// Where crediting the reserve of the record storage to the initializer
/// would exceed the largest balance, retiring the record fails with
/// `AmountOverflow`, and only then.
pub proof fn lemma_retire_guards_overflow(s: Seq<AccountModel>)
    requires
        s.len() >= 7,
    ensures
        s[4].lamports + s[6].lamports > u64::MAX <==> retired(s) == Err::<
            Seq<AccountModel>,
            EscrowError,
        >(EscrowError::AmountOverflow),
        s[4].lamports + s[6].lamports <= u64::MAX <==> retired(s) is Ok,
{
}

/// An exchange that fails with `AmountOverflow` has credited nothing of the
/// record's reserve and has left the record storage as it was; one that
/// succeeds has credited all of it.
pub proof fn lemma_overflow_is_refused(
    before: Seq<AccountModel>,
    amount: u64,
    program: Seq<u8>,
    r: Result<(), EscrowError>,
    after: Seq<AccountModel>,
)
    requires
        exchange_plan(before, amount, program) is Ok,
        exchange_post(before, amount, program, r, after),
    ensures
        r == Err::<(), EscrowError>(EscrowError::AmountOverflow) ==> {
            &&& ledger_frame(before, after, settlement_picks())
            &&& after[6] == before[6]
            &&& after[4].lamports + after[6].lamports > u64::MAX
        },
        r is Ok ==> after[4].lamports >= before[6].lamports && after[6].lamports == 0,
{
    assert(!settlement_picks().contains(6usize));
    let settled = choose|settled: Seq<AccountModel>| #[trigger]
        ledger_frame(before, settled, settlement_picks()) && match r {
            Err(EscrowError::Ledger(_)) => after == settled,
            _ => match retired(settled) {
                Ok(closed) => r is Ok && after == closed,
                Err(e) => r == Err::<(), EscrowError>(e) && after == settled,
            },
        };
    assert(settled[6] == before[6]);
}

/// A record is written once and retired once, and is never changed between.
/// An opening changes the record storage only where it held no record, and
/// then writes all four terms and marks them initialized. An exchange leaves
/// the record storage as it was, or, where it succeeds, without balance and
/// all zero.
pub proof fn lemma_record_is_immutable_until_retired(
    before: Seq<AccountModel>,
    amount: u64,
    program: Seq<u8>,
    r: Result<(), EscrowError>,
    after: Seq<AccountModel>,
)
    requires
        all_wf(before),
    ensures
        init_post(before, amount, program, r, after) && init_plan(before, amount, program)
            is Err ==> after == before,
        init_post(before, amount, program, r, after) && init_plan(before, amount, program)
            is Ok ==> {
            &&& parse_record(before[3].data) is Some
            &&& !parse_record(before[3].data).unwrap().is_initialized
            &&& parse_record(after[3].data) == Some(
                EscrowView {
                    is_initialized: true,
                    initializer_pubkey: before[0].key,
                    temp_token_account_pubkey: before[1].key,
                    initializer_token_to_receive_account_pubkey: before[2].key,
                    expected_amount: amount,
                },
            )
            &&& after[3].lamports == before[3].lamports
        },
        exchange_post(before, amount, program, r, after) && before.len() > 6 ==> {
            ||| after[6] == before[6]
            ||| r is Ok && after[6] == (AccountModel {
                lamports: 0,
                data: zeros(before[6].data.len()),
                ..before[6]
            })
        },
{
    if init_post(before, amount, program, r, after) && init_plan(before, amount, program) is Ok {
        let plan = init_plan(before, amount, program).unwrap();
        assert(before[0].wf() && before[1].wf() && before[2].wf());
        lemma_parse_of_record_bytes(plan.record);
        assert(!custody_picks().contains(3usize));
        assert(after[3] == recorded(before, plan.record)[3]);
    }
    if exchange_post(before, amount, program, r, after) && before.len() > 6 {
        if exchange_plan(before, amount, program) is Ok {
            assert(!settlement_picks().contains(6usize));
            let settled = choose|settled: Seq<AccountModel>| #[trigger]
                ledger_frame(before, settled, settlement_picks()) && match r {
                    Err(EscrowError::Ledger(_)) => after == settled,
                    _ => match retired(settled) {
                        Ok(closed) => r is Ok && after == closed,
                        Err(e) => r == Err::<(), EscrowError>(e) && after == settled,
                    },
                };
            assert(settled[6] == before[6]);
        }
    }
}

} // verus!
