//! The escrow record and its stored form.
//!
//! A record occupies exactly 105 bytes, packed without padding: one byte that
//! says whether the record is initialized, three identities of 32 bytes each,
//! and the expected amount in eight little-endian bytes.

use vstd::prelude::*;
use crate::account::AccountId;
use crate::bytes::{
    le_u64, lemma_le_u64_bounds, lemma_le_u64_of_u64_le, lemma_u64_le_of_le_u64, read_u64_le,
    u64_le, write_u64_le,
};
use crate::error::EscrowError;

verus! {

/// The terms of one pending swap.
#[derive(Clone, Copy, Debug, PartialEq, Eq)]
pub struct Escrow {
    pub is_initialized: bool,
    /// Who opened the escrow.
    pub initializer_pubkey: AccountId,
    /// The custody account that holds the deposit.
    pub temp_token_account_pubkey: AccountId,
    /// Where the initializer wants to be paid.
    pub initializer_token_to_receive_account_pubkey: AccountId,
    /// What the initializer wants in return.
    pub expected_amount: u64,
}

/// The mathematical value of a record.
pub struct EscrowView {
    pub is_initialized: bool,
    pub initializer_pubkey: Seq<u8>,
    pub temp_token_account_pubkey: Seq<u8>,
    pub initializer_token_to_receive_account_pubkey: Seq<u8>,
    pub expected_amount: u64,
}

impl EscrowView {
    /// Each identity has thirty-two bytes.
    pub open spec fn wf(self) -> bool {
        &&& self.initializer_pubkey.len() == 32
        &&& self.temp_token_account_pubkey.len() == 32
        &&& self.initializer_token_to_receive_account_pubkey.len() == 32
    }
}

impl View for Escrow {
    type V = EscrowView;

    open spec fn view(&self) -> EscrowView {
        EscrowView {
            is_initialized: self.is_initialized,
            initializer_pubkey: self.initializer_pubkey@,
            temp_token_account_pubkey: self.temp_token_account_pubkey@,
            initializer_token_to_receive_account_pubkey:
                self.initializer_token_to_receive_account_pubkey@,
            expected_amount: self.expected_amount,
        }
    }
}

/// The number of bytes that a stored record occupies.
pub const ESCROW_LEN: usize = 105;

/// The stored form of a record.
pub open spec fn record_bytes(e: EscrowView) -> Seq<u8> {
    seq![if e.is_initialized { 1u8 } else { 0u8 }] + e.initializer_pubkey
        + e.temp_token_account_pubkey + e.initializer_token_to_receive_account_pubkey + u64_le(
        e.expected_amount,
    )
}

/// The record that storage holds. Storage of another length, or with a first
/// byte other than 0 or 1, holds none.
pub open spec fn parse_record(s: Seq<u8>) -> Option<EscrowView> {
    if s.len() == 105 && s[0] <= 1 {
        Some(
            EscrowView {
                is_initialized: s[0] == 1,
                initializer_pubkey: s.subrange(1, 33),
                temp_token_account_pubkey: s.subrange(33, 65),
                initializer_token_to_receive_account_pubkey: s.subrange(65, 97),
                expected_amount: le_u64(s.subrange(97, 105)) as u64,
            },
        )
    } else {
        None
    }
}

/// Storing a record and reading the storage gives the record back.
pub proof fn lemma_parse_of_record_bytes(e: EscrowView)
    requires
        e.wf(),
    ensures
        record_bytes(e).len() == 105,
        parse_record(record_bytes(e)) == Some(e),
{
    let s = record_bytes(e);
    lemma_le_u64_of_u64_le(e.expected_amount);
    assert(s.subrange(1, 33) =~= e.initializer_pubkey);
    assert(s.subrange(33, 65) =~= e.temp_token_account_pubkey);
    assert(s.subrange(65, 97) =~= e.initializer_token_to_receive_account_pubkey);
    assert(s.subrange(97, 105) =~= u64_le(e.expected_amount));
}

/// Storage that holds a record is the stored form of that record.
pub proof fn lemma_record_bytes_of_parse(s: Seq<u8>)
    requires
        parse_record(s) is Some,
    ensures
        parse_record(s).unwrap().wf(),
        record_bytes(parse_record(s).unwrap()) == s,
{
    lemma_le_u64_bounds(s.subrange(97, 105));
    lemma_u64_le_of_le_u64(s.subrange(97, 105));
    assert(record_bytes(parse_record(s).unwrap()) =~= s);
}

/// Reads the identity stored in the 32 bytes of `src` that start at `at`.
fn read_id(src: &[u8], at: usize) -> (id: AccountId)
    requires
        at + 32 <= src@.len(),
    ensures
        id@ == src@.subrange(at as int, at + 32),
{
    let n = src.len();
    let mut bytes = [0u8; 32];
    let mut i: usize = 0;
    while i < 32
        invariant
            i <= 32,
            at + 32 <= src@.len(),
            src@.len() == n,
            forall|j: int| 0 <= j < i ==> bytes@[j] == src@[at + j],
        decreases 32 - i,
    {
        bytes[i] = src[at + i];
        i += 1;
    }
    assert(bytes@ =~= src@.subrange(at as int, at + 32));
    AccountId { bytes }
}

/// Stores an identity in the 32 bytes of `dst` that start at `at`.
fn write_id(dst: &mut Vec<u8>, at: usize, id: &AccountId)
    requires
        at + 32 <= old(dst)@.len(),
    ensures
        final(dst)@.len() == old(dst)@.len(),
        final(dst)@.subrange(at as int, at + 32) == id@,
        forall|i: int|
            0 <= i < old(dst)@.len() && !(at <= i < at + 32) ==> final(dst)@[i] == old(dst)@[i],
{
    let n = dst.len();
    let mut i: usize = 0;
    while i < 32
        invariant
            i <= 32,
            at + 32 <= n,
            dst@.len() == n,
            n == old(dst)@.len(),
            forall|j: int| 0 <= j < i ==> dst@[at + j] == id.bytes@[j],
            forall|j: int| 0 <= j < n && !(at <= j < at + 32) ==> dst@[j] == old(dst)@[j],
        decreases 32 - i,
    {
        dst[at + i] = id.bytes[i];
        i += 1;
    }
    assert(dst@.subrange(at as int, at + 32) =~= id@);
}

impl Escrow {
    /// Reads a record from storage of the right length.
    pub fn unpack_from_slice(src: &[u8]) -> (r: Result<Escrow, EscrowError>)
        requires
            src@.len() == 105,
        ensures
            match r {
                Ok(e) => parse_record(src@) == Some(e@),
                Err(err) => err == EscrowError::InvalidAccountData && parse_record(src@) is None,
            },
    {
        let flag = src[0];
        if flag > 1 {
            return Err(EscrowError::InvalidAccountData);
        }
        let expected_amount = read_u64_le(src, 97);
        proof {
            lemma_le_u64_bounds(src@.subrange(97, 105));
        }
        Ok(
            Escrow {
                is_initialized: flag == 1,
                initializer_pubkey: read_id(src, 1),
                temp_token_account_pubkey: read_id(src, 33),
                initializer_token_to_receive_account_pubkey: read_id(src, 65),
                expected_amount,
            },
        )
    }

    /// Reads a record from storage, initialized or not.
    pub fn unpack_unchecked(input: &[u8]) -> (r: Result<Escrow, EscrowError>)
        ensures
            match r {
                Ok(e) => parse_record(input@) == Some(e@),
                Err(err) => err == EscrowError::InvalidAccountData && parse_record(input@)
                    is None,
            },
    {
        if input.len() != ESCROW_LEN {
            return Err(EscrowError::InvalidAccountData);
        }
        Escrow::unpack_from_slice(input)
    }

    /// Reads an initialized record from storage.
    pub fn unpack(input: &[u8]) -> (r: Result<Escrow, EscrowError>)
        ensures
            match parse_record(input@) {
                None => r == Err::<Escrow, EscrowError>(EscrowError::InvalidAccountData),
                Some(v) => if v.is_initialized {
                    r is Ok && r.unwrap()@ == v
                } else {
                    r == Err::<Escrow, EscrowError>(EscrowError::UninitializedAccount)
                },
            },
    {
        let value = Escrow::unpack_unchecked(input)?;
        if value.is_initialized {
            Ok(value)
        } else {
            Err(EscrowError::UninitializedAccount)
        }
    }

    /// Writes the record over storage of the right length.
    pub fn pack_into_slice(&self, dst: &mut Vec<u8>)
        requires
            old(dst)@.len() == 105,
        ensures
            final(dst)@ == record_bytes(self@),
    {
        dst[0] = if self.is_initialized { 1 } else { 0 };
        write_id(dst, 1, &self.initializer_pubkey);
        write_id(dst, 33, &self.temp_token_account_pubkey);
        write_id(dst, 65, &self.initializer_token_to_receive_account_pubkey);
        write_u64_le(dst, 97, self.expected_amount);
        proof {
            let s = dst@;
            let t = record_bytes(self@);
            assert(s.len() == 105 && t.len() == 105);
            assert forall|i: int| 0 <= i < 105 implies s[i] == t[i] by {
                if 1 <= i < 33 {
                    assert(s[i] == s.subrange(1, 33)[i - 1]);
                } else if 33 <= i < 65 {
                    assert(s[i] == s.subrange(33, 65)[i - 33]);
                } else if 65 <= i < 97 {
                    assert(s[i] == s.subrange(65, 97)[i - 65]);
                } else if 97 <= i {
                    assert(s[i] == s.subrange(97, 105)[i - 97]);
                }
            }
            assert(s =~= t);
        }
    }

    /// Writes the record over storage. Storage of another length is refused
    /// as `InvalidAccountData` and left as it was.
    pub fn pack(src: Escrow, dst: &mut Vec<u8>) -> (r: Result<(), EscrowError>)
        ensures
            old(dst)@.len() == 105 ==> r is Ok && final(dst)@ == record_bytes(src@),
            old(dst)@.len() != 105 ==> r == Err::<(), EscrowError>(EscrowError::InvalidAccountData)
                && final(dst)@ == old(dst)@,
    {
        if dst.len() != ESCROW_LEN {
            return Err(EscrowError::InvalidAccountData);
        }
        src.pack_into_slice(dst);
        Ok(())
    }
}

} // verus!
