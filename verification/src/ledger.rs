//! The boundary to the host and to the ledger program.
//!
//! Everything in this file that is marked `external_body`, declared as an
//! outside type, or declared without a body is taken on trust: it states what
//! `solana_program` and `spl_token` do, and nothing here proves it. The rest of
//! the library is proved against these statements.

use vstd::prelude::*;
use solana_program::account_info::AccountInfo;
use solana_program::instruction::Instruction;
use solana_program::program_error::ProgramError;
use solana_program::program_pack::Pack;
use solana_program::pubkey::Pubkey;
use solana_program::rent::Rent;
use solana_program::sysvar::Sysvar;
use spl_token::instruction::AuthorityType;
use crate::account::{models, Account, AccountId, AccountModel};
use crate::bytes::le_u64;

verus! {

/// `solana_program::instruction::Instruction`, a request that is ready to be
/// handed to the ledger program. Opaque.
#[verifier::external_type_specification]
#[verifier::external_body]
pub struct ExInstruction(Instruction);

/// `solana_program::rent::Rent`, the host's rent schedule. Opaque.
#[verifier::external_type_specification]
#[verifier::external_body]
pub struct ExRent(Rent);

/// Move `amount` from one asset account to another.
#[derive(Clone, Copy, Debug, PartialEq, Eq)]
pub struct Transfer {
    pub source: AccountId,
    pub destination: AccountId,
    pub authority: AccountId,
    pub amount: u64,
}

/// Which of an asset account's authorities a reassignment is about.
#[derive(Clone, Copy, Debug, PartialEq, Eq)]
pub enum AuthorityKind {
    MintTokens,
    FreezeAccount,
    AccountOwner,
    CloseAccount,
}

/// Hand one authority over an asset account to another identity.
#[derive(Clone, Copy, Debug, PartialEq, Eq)]
pub struct SetAuthority {
    pub account: AccountId,
    pub new_authority: AccountId,
    pub kind: AuthorityKind,
    pub current_authority: AccountId,
}

/// Close an asset account and refund its reserve.
#[derive(Clone, Copy, Debug, PartialEq, Eq)]
pub struct CloseAccount {
    pub account: AccountId,
    pub refund_to: AccountId,
    pub authority: AccountId,
}

/// The mathematical value of a `Transfer`.
pub struct TransferView {
    pub source: Seq<u8>,
    pub destination: Seq<u8>,
    pub authority: Seq<u8>,
    pub amount: u64,
}

impl View for Transfer {
    type V = TransferView;

    open spec fn view(&self) -> TransferView {
        TransferView {
            source: self.source@,
            destination: self.destination@,
            authority: self.authority@,
            amount: self.amount,
        }
    }
}

/// The mathematical value of a `SetAuthority`.
pub struct SetAuthorityView {
    pub account: Seq<u8>,
    pub new_authority: Seq<u8>,
    pub kind: AuthorityKind,
    pub current_authority: Seq<u8>,
}

impl View for SetAuthority {
    type V = SetAuthorityView;

    open spec fn view(&self) -> SetAuthorityView {
        SetAuthorityView {
            account: self.account@,
            new_authority: self.new_authority@,
            kind: self.kind,
            current_authority: self.current_authority@,
        }
    }
}

/// The mathematical value of a `CloseAccount`.
pub struct CloseAccountView {
    pub account: Seq<u8>,
    pub refund_to: Seq<u8>,
    pub authority: Seq<u8>,
}

impl View for CloseAccount {
    type V = CloseAccountView;

    open spec fn view(&self) -> CloseAccountView {
        CloseAccountView {
            account: self.account@,
            refund_to: self.refund_to@,
            authority: self.authority@,
        }
    }
}

/// The identity of the ledger program.
pub open spec fn ledger_program_id() -> Seq<u8> {
    seq![
        6u8, 221u8, 246u8, 225u8, 215u8, 101u8, 161u8, 147u8, 217u8, 203u8, 225u8, 70u8, 206u8,
        235u8, 121u8, 172u8, 28u8, 180u8, 133u8, 237u8, 95u8, 91u8, 55u8, 145u8, 58u8, 140u8,
        245u8, 133u8, 126u8, 255u8, 0u8, 169u8,
    ]
}

/// `spl_token::id`: the ledger program's identity. The bytes stated are those
/// of the identity that the crate declares in base 58.
#[verifier::external_body]
pub(crate) fn ledger_program() -> (id: AccountId)
    ensures
        id@ == ledger_program_id(),
{
    AccountId { bytes: spl_token::id().to_bytes() }
}

/// Whether the four bytes at `at` are the tag of an optional field: 0 or 1
/// as a 32-bit little-endian number.
pub open spec fn option_tag(data: Seq<u8>, at: int) -> bool {
    (data[at] == 0 || data[at] == 1) && data[at + 1] == 0 && data[at + 2] == 0 && data[at + 3]
        == 0
}

/// The balance of an asset account, read from its storage. The storage is
/// that of an asset account in use when it has 165 bytes, the tags of its
/// three optional fields (delegate at 72, native reserve at 109, close
/// authority at 129) are well formed, and its state byte at 108 says
/// initialized (1) or frozen (2). The balance is the little-endian amount in
/// bytes 64 to 71.
pub open spec fn token_balance(data: Seq<u8>) -> Option<u64> {
    if data.len() == 165 && option_tag(data, 72) && (data[108] == 1 || data[108] == 2)
        && option_tag(data, 109) && option_tag(data, 129) {
        Some(le_u64(data.subrange(64, 72)) as u64)
    } else {
        None
    }
}

/// `spl_token::state::Account::unpack`, of which the library reads the
/// `amount`: it succeeds exactly on the storage of an asset account in use,
/// and the amount is the one stored there.
#[verifier::external_body]
pub(crate) fn token_account_amount(data: &[u8]) -> (r: Result<u64, ProgramError>)
    ensures
        match r {
            Ok(amount) => token_balance(data@) == Some(amount),
            Err(_) => token_balance(data@) is None,
        },
{
    spl_token::state::Account::unpack(data).map(|account| account.amount)
}

/// What `Pubkey::try_find_program_address` returns for one seed and a program
/// identity: an identity that no private key belongs to, and the
/// discriminator byte that was appended to the seed to reach it.
pub uninterp spec fn program_address(seed: Seq<u8>, program: Seq<u8>) -> Option<(Seq<u8>, u8)>;

/// `Pubkey::try_find_program_address` with a single seed. The result depends
/// on the seed and the program identity alone.
#[verifier::external_body]
pub(crate) fn find_program_address(seed: &[u8], program: &AccountId) -> (r: Option<
    (AccountId, u8),
>)
    ensures
        match r {
            Some((id, bump)) => program_address(seed@, program@) == Some((id@, bump)),
            None => program_address(seed@, program@) is None,
        },
{
    Pubkey::try_find_program_address(&[seed], &Pubkey::new_from_array(program.bytes)).map(
        |(key, bump)| (AccountId { bytes: key.to_bytes() }, bump),
    )
}

/// The rent schedule that `Rent::from_account_info` reads from an account
/// with this identity and this storage, if it reads one.
pub uninterp spec fn rent_schedule(key: Seq<u8>, data: Seq<u8>) -> Option<Rent>;

/// The field `lamports_per_byte_year` of a rent schedule.
pub uninterp spec fn rent_rate(rent: Rent) -> u64;

/// What `Rent::is_exempt` answers for a balance and a storage size.
pub uninterp spec fn rent_exempt(rent: Rent, lamports: u64, data_len: usize) -> bool;

/// `Rent::from_account_info`: the schedule is read from the account's
/// identity and storage alone.
#[verifier::external_body]
pub(crate) fn rent_from_account(account: &Account) -> (r: Result<Rent, ProgramError>)
    ensures
        match r {
            Ok(rent) => rent_schedule(account.key@, account.data@) == Some(rent),
            Err(_) => rent_schedule(account.key@, account.data@) is None,
        },
{
    let key = Pubkey::new_from_array(account.key.bytes);
    let owner = Pubkey::new_from_array(account.owner.bytes);
    let (mut lamports, mut data) = (account.lamports, account.data.clone());
    Rent::from_account_info(
        &AccountInfo::new(
            &key,
            account.is_signer,
            account.is_writable,
            &mut lamports,
            &mut data,
            &owner,
            account.executable,
            account.rent_epoch,
        ),
    )
}

/// Reads the field `lamports_per_byte_year` of a rent schedule.
#[verifier::external_body]
pub(crate) fn rent_lamports_per_byte_year(rent: &Rent) -> (rate: u64)
    ensures
        rate == rent_rate(*rent),
{
    rent.lamports_per_byte_year
}

/// `Rent::is_exempt`. It adds 128 to the storage size and multiplies the sum
/// by the rate, both in 64 bits, so the inputs on which either does not fit
/// are left out.
#[verifier::external_body]
pub(crate) fn rent_is_exempt(rent: &Rent, lamports: u64, data_len: usize) -> (exempt: bool)
    requires
        data_len + 128 <= u64::MAX,
        (data_len + 128) * rent_rate(*rent) <= u64::MAX,
    ensures
        exempt == rent_exempt(*rent, lamports, data_len),
{
    rent.is_exempt(lamports, data_len)
}

/// `spl_token::instruction::transfer`, with the authority as the only signer.
/// It refuses exactly when `program` is not the ledger program.
#[verifier::external_body]
pub(crate) fn transfer_instruction(program: &AccountId, call: &Transfer) -> (r: Result<
    Instruction,
    ProgramError,
>)
    ensures
        r is Ok <==> program@ == ledger_program_id(),
{
    let authority = Pubkey::new_from_array(call.authority.bytes);
    spl_token::instruction::transfer(
        &Pubkey::new_from_array(program.bytes),
        &Pubkey::new_from_array(call.source.bytes),
        &Pubkey::new_from_array(call.destination.bytes),
        &authority,
        &[&authority],
        call.amount,
    )
}

/// `spl_token::instruction::set_authority`, with the current authority as
/// the only signer. It refuses exactly when `program` is not the ledger
/// program.
#[verifier::external_body]
pub(crate) fn set_authority_instruction(program: &AccountId, call: &SetAuthority) -> (r: Result<
    Instruction,
    ProgramError,
>)
    ensures
        r is Ok <==> program@ == ledger_program_id(),
{
    let kind = match call.kind {
        AuthorityKind::MintTokens => AuthorityType::MintTokens,
        AuthorityKind::FreezeAccount => AuthorityType::FreezeAccount,
        AuthorityKind::AccountOwner => AuthorityType::AccountOwner,
        AuthorityKind::CloseAccount => AuthorityType::CloseAccount,
    };
    let program = Pubkey::new_from_array(program.bytes);
    let account = Pubkey::new_from_array(call.account.bytes);
    let new = Pubkey::new_from_array(call.new_authority.bytes);
    let current = Pubkey::new_from_array(call.current_authority.bytes);
    let signers = [&current];
    spl_token::instruction::set_authority(&program, &account, Some(&new), kind, &current, &signers)
}

/// `spl_token::instruction::close_account`, with the authority as the only
/// signer. It refuses exactly when `program` is not the ledger program.
#[verifier::external_body]
pub(crate) fn close_account_instruction(program: &AccountId, call: &CloseAccount) -> (r: Result<
    Instruction,
    ProgramError,
>)
    ensures
        r is Ok <==> program@ == ledger_program_id(),
{
    let authority = Pubkey::new_from_array(call.authority.bytes);
    spl_token::instruction::close_account(
        &Pubkey::new_from_array(program.bytes),
        &Pubkey::new_from_array(call.account.bytes),
        &Pubkey::new_from_array(call.refund_to.bytes),
        &authority,
        &[&authority],
    )
}

/// What a call into the ledger leaves as it was: the number of accounts;
/// of each account, everything but its balance, its storage and the program
/// that owns it; and every account that was not handed to the call.
pub open spec fn ledger_frame(
    before: Seq<AccountModel>,
    after: Seq<AccountModel>,
    picks: Seq<usize>,
) -> bool {
    &&& after.len() == before.len()
    &&& forall|i: int|
        0 <= i < before.len() ==> (#[trigger] after[i]) == (AccountModel {
            owner: after[i].owner,
            lamports: after[i].lamports,
            data: after[i].data,
            ..before[i]
        })
    &&& forall|i: int|
        0 <= i < before.len() && !picks.contains(i as usize) ==> (#[trigger] after[i])
            == before[i]
}

/// `solana_program::program::invoke` on the accounts at `picks`. The call is
/// handed each account's balance and storage to write to and the rest of it
/// to read. Whether it succeeds, and what it does to the accounts handed to
/// it, is the ledger's affair.
#[verifier::external_body]
pub(crate) fn invoke(
    instruction: &Instruction,
    accounts: &mut Vec<Account>,
    picks: &[usize],
) -> (r: Result<(), ProgramError>)
    requires
        forall|k: int| 0 <= k < picks@.len() ==> picks@[k] < old(accounts)@.len(),
    ensures
        ledger_frame(models(old(accounts)@), models(final(accounts)@), picks@),
{
    let ids: Vec<(Pubkey, Pubkey)> = accounts.iter().map(
        |a| (Pubkey::new_from_array(a.key.bytes), Pubkey::new_from_array(a.owner.bytes)),
    ).collect();
    let infos: Vec<AccountInfo> = accounts.iter_mut().zip(ids.iter()).map(
        |(a, (key, owner))| AccountInfo::new(
            key, a.is_signer, a.is_writable, &mut a.lamports, &mut a.data, owner, a.executable,
            a.rent_epoch,
        ),
    ).collect();
    let chosen: Vec<AccountInfo> = picks.iter().map(|i| infos[*i].clone()).collect();
    solana_program::program::invoke(instruction, &chosen)
}

/// `solana_program::program::invoke_signed` on the accounts at `picks`, signed
/// for the identity that `seed` and `bump` derive. The call is handed each
/// account's balance and storage to write to and the rest of it to read.
/// Whether it succeeds, and what it does to the accounts handed to it, is the
/// ledger's affair.
#[verifier::external_body]
pub(crate) fn invoke_signed(
    instruction: &Instruction,
    accounts: &mut Vec<Account>,
    picks: &[usize],
    seed: &[u8],
    bump: u8,
) -> (r: Result<(), ProgramError>)
    requires
        forall|k: int| 0 <= k < picks@.len() ==> picks@[k] < old(accounts)@.len(),
    ensures
        ledger_frame(models(old(accounts)@), models(final(accounts)@), picks@),
{
    let ids: Vec<(Pubkey, Pubkey)> = accounts.iter().map(
        |a| (Pubkey::new_from_array(a.key.bytes), Pubkey::new_from_array(a.owner.bytes)),
    ).collect();
    let infos: Vec<AccountInfo> = accounts.iter_mut().zip(ids.iter()).map(
        |(a, (key, owner))| AccountInfo::new(
            key, a.is_signer, a.is_writable, &mut a.lamports, &mut a.data, owner, a.executable,
            a.rent_epoch,
        ),
    ).collect();
    let chosen: Vec<AccountInfo> = picks.iter().map(|i| infos[*i].clone()).collect();
    solana_program::program::invoke_signed(instruction, &chosen, &[&[seed, &[bump]]])
}

} // verus!
