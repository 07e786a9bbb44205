//! Identities and accounts as plain values.

use vstd::prelude::*;

verus! {

/// The identity of an account: thirty-two bytes.
#[derive(Clone, Copy, Debug, PartialEq, Eq, Hash)]
pub struct AccountId {
    pub bytes: [u8; 32],
}

impl View for AccountId {
    type V = Seq<u8>;

    open spec fn view(&self) -> Seq<u8> {
        self.bytes@
    }
}

impl AccountId {
    /// An identity from its thirty-two bytes.
    pub fn new(bytes: [u8; 32]) -> (id: AccountId)
        ensures
            id@ == bytes@,
            id.bytes == bytes,
    {
        AccountId { bytes }
    }

    /// Whether two identities are the same, byte for byte.
    pub fn same_as(&self, other: &AccountId) -> (same: bool)
        ensures
            same == (self@ == other@),
    {
        let mut i: usize = 0;
        while i < 32
            invariant
                i <= 32,
                forall|j: int| 0 <= j < i ==> self.bytes@[j] == other.bytes@[j],
            decreases 32 - i,
        {
            if self.bytes[i] != other.bytes[i] {
                return false;
            }
            i += 1;
        }
        assert(self.bytes@ =~= other.bytes@);
        true
    }
}

/// An account as the host presents it to an instruction: who it is, which
/// program owns it, whether its holder signed, its balance and its storage.
#[derive(Clone, Debug, PartialEq, Eq)]
pub struct Account {
    pub key: AccountId,
    pub owner: AccountId,
    pub is_signer: bool,
    pub is_writable: bool,
    pub executable: bool,
    pub rent_epoch: u64,
    pub lamports: u64,
    pub data: Vec<u8>,
}

/// The mathematical value of an account.
pub struct AccountModel {
    pub key: Seq<u8>,
    pub owner: Seq<u8>,
    pub is_signer: bool,
    pub is_writable: bool,
    pub executable: bool,
    pub rent_epoch: u64,
    pub lamports: u64,
    pub data: Seq<u8>,
}

impl AccountModel {
    /// What holds of the value of every account: identities have thirty-two
    /// bytes.
    pub open spec fn wf(self) -> bool {
        &&& self.key.len() == 32
        &&& self.owner.len() == 32
    }
}

impl View for Account {
    type V = AccountModel;

    open spec fn view(&self) -> AccountModel {
        AccountModel {
            key: self.key@,
            owner: self.owner@,
            is_signer: self.is_signer,
            is_writable: self.is_writable,
            executable: self.executable,
            rent_epoch: self.rent_epoch,
            lamports: self.lamports,
            data: self.data@,
        }
    }
}

/// The mathematical value of an ordered account list.
pub open spec fn models(accounts: Seq<Account>) -> Seq<AccountModel> {
    Seq::new(accounts.len(), |i: int| accounts[i]@)
}

/// Whether the value of every account in the list is well formed.
pub open spec fn all_wf(s: Seq<AccountModel>) -> bool {
    forall|i: int| 0 <= i < s.len() ==> (#[trigger] s[i]).wf()
}

/// The values of the accounts in any list are well formed, so what is proved
/// of well-formed values holds of every list that a caller can pass.
pub proof fn lemma_models_wf(accounts: Seq<Account>)
    ensures
        all_wf(models(accounts)),
        models(accounts).len() == accounts.len(),
{
    assert forall|i: int| 0 <= i < accounts.len() implies (#[trigger] models(accounts)[i]).wf() by {
        let a = accounts[i];
        assert(a.key@.len() == 32);
        assert(a.owner@.len() == 32);
    }
}

} // verus!
