//! The store of a master pass authority.

use vstd::prelude::*;

use crate::codec::{
    copy_to_front, get_key, get_u64, lemma_read_key, lemma_read_u64, lemma_read_key_inverse,
    lemma_read_u64_inverse, lemma_skip_front, put_key, put_u64, read_agrees_view, read_key,
    read_u64, rest_at, u64_bytes,
};
use vstd::seq_lib::lemma_concat_associative;
use crate::error::{program_error_of, view_result, NFTPassError, ProgramError};
use crate::pubkey::Pubkey;
use crate::utils::error_increment;
use crate::master_pass::{
    account_type_bytes, account_type_tag, get_account_type, lemma_read_account_type,
    lemma_read_account_type_inverse, put_account_type, read_account_type, AccountType,
};
use crate::state::IsInitialized;
use crate::state::MAX_PASS_LEN;

verus! {

/// Length of the data that the store's own layout names: its mint and counts, and padding.
pub const MAX_PASS_STORE_LEN: usize = 32 + 64 + 64 + 64 + 118;

/// Pass Store
#[derive(Clone, Debug, PartialEq, Default)]
pub struct Store {
    /// Account type - Pass
    pub account_type: AccountType,
    /// Authority of this store
    pub authority: Pubkey,
    /// count of editions redeemed
    pub redemptions_count: u64,
    /// count of editions printed
    pub editions_count: u64,
    /// count of master edition passes belonging to this store
    pub pass_collection_count: u64,
}

/// `Store` with its addresses as bytes and its texts as characters.
pub struct StoreView {
    pub account_type: AccountType,
    pub authority: Seq<u8>,
    pub redemptions_count: u64,
    pub editions_count: u64,
    pub pass_collection_count: u64,
}

impl View for Store {
    type V = StoreView;

    open spec fn view(&self) -> StoreView {
        StoreView {
            account_type: self.account_type,
            authority: self.authority@,
            redemptions_count: self.redemptions_count,
            editions_count: self.editions_count,
            pass_collection_count: self.pass_collection_count,
        }
    }
}

/// The values of `Store` that the format can hold: addresses of 32 bytes, texts
/// of at most `u32::MAX` bytes.
pub open spec fn store_ok(v: StoreView) -> bool {
    v.authority.len() == 32
}

/// The encoding of a `Store`: its fields in order.
#[verifier::opaque]
pub open spec fn store_bytes(v: StoreView) -> Seq<u8> {
    account_type_bytes(v.account_type) + (v.authority + (u64_bytes(v.redemptions_count) + (u64_bytes(v.editions_count) + (u64_bytes(v.pass_collection_count)))))
}

/// Reads the fields of a `Store` in order.
#[verifier::opaque]
pub open spec fn read_store(s: Seq<u8>) -> Option<(StoreView, Seq<u8>)> {
    match read_account_type(s) {
        Some((account_type, r0)) => {
            match read_key(r0) {
                Some((authority, r1)) => {
                    match read_u64(r1) {
                        Some((redemptions_count, r2)) => {
                            match read_u64(r2) {
                                Some((editions_count, r3)) => {
                                    match read_u64(r3) {
                                        Some((pass_collection_count, r4)) => {
                                            Some((StoreView { account_type, authority, redemptions_count, editions_count, pass_collection_count }, r4))
                                        },
                                        None => None,
                                    }
                                },
                                None => None,
                            }
                        },
                        None => None,
                    }
                },
                None => None,
            }
        },
        None => None,
    }
}

/// Reading the encoding of a `Store` gives it back and leaves what followed.
pub proof fn lemma_read_store(v: StoreView, rest: Seq<u8>)
    requires
        store_ok(v),
    ensures
        read_store(store_bytes(v) + rest) == Some((v, rest)),
{
    reveal(store_bytes);
    reveal(read_store);
    let q5 = rest;
    let q4 = u64_bytes(v.pass_collection_count) + q5;
    let q3 = u64_bytes(v.editions_count) + q4;
    let q2 = u64_bytes(v.redemptions_count) + q3;
    let q1 = v.authority + q2;
    let q0 = account_type_bytes(v.account_type) + q1;
    lemma_concat_associative(u64_bytes(v.editions_count), u64_bytes(v.pass_collection_count), rest);
    lemma_concat_associative(u64_bytes(v.redemptions_count), u64_bytes(v.editions_count) + (u64_bytes(v.pass_collection_count)), rest);
    lemma_concat_associative(v.authority, u64_bytes(v.redemptions_count) + (u64_bytes(v.editions_count) + (u64_bytes(v.pass_collection_count))), rest);
    lemma_concat_associative(account_type_bytes(v.account_type), v.authority + (u64_bytes(v.redemptions_count) + (u64_bytes(v.editions_count) + (u64_bytes(v.pass_collection_count)))), rest);
    assert(store_bytes(v) + rest == q0);
    lemma_read_account_type(v.account_type, q1);
    lemma_read_key(v.authority, q2);
    lemma_read_u64(v.redemptions_count, q3);
    lemma_read_u64(v.editions_count, q4);
    lemma_read_u64(v.pass_collection_count, q5);
}

/// A successful read of a `Store` consumed exactly its encoding.
pub proof fn lemma_read_store_inverse(s: Seq<u8>)
    ensures
        read_store(s) matches Some((v, r)) ==> store_ok(v) && store_bytes(v) + r == s,
{
    reveal(store_bytes);
    reveal(read_store);
    if let Some((v, r)) = read_store(s) {
        lemma_read_account_type_inverse(s);
        let s1 = read_account_type(s)->Some_0.1;
        lemma_read_key_inverse(s1);
        let s2 = read_key(s1)->Some_0.1;
        lemma_read_u64_inverse(s2);
        let s3 = read_u64(s2)->Some_0.1;
        lemma_read_u64_inverse(s3);
        let s4 = read_u64(s3)->Some_0.1;
        lemma_read_u64_inverse(s4);
        let s5 = read_u64(s4)->Some_0.1;
        lemma_concat_associative(u64_bytes(v.editions_count), u64_bytes(v.pass_collection_count), r);
        lemma_concat_associative(u64_bytes(v.redemptions_count), u64_bytes(v.editions_count) + (u64_bytes(v.pass_collection_count)), r);
        lemma_concat_associative(v.authority, u64_bytes(v.redemptions_count) + (u64_bytes(v.editions_count) + (u64_bytes(v.pass_collection_count))), r);
        lemma_concat_associative(account_type_bytes(v.account_type), v.authority + (u64_bytes(v.redemptions_count) + (u64_bytes(v.editions_count) + (u64_bytes(v.pass_collection_count)))), r);
    }
}

/// The length of the encoding of a `Store`: the lengths of its fields added up.
pub proof fn lemma_store_bytes_len(v: StoreView)
    ensures
        store_bytes(v).len() == (account_type_bytes(v.account_type)).len() + (v.authority).len() + (u64_bytes(v.redemptions_count)).len() + (u64_bytes(v.editions_count)).len() + (u64_bytes(v.pass_collection_count)).len(),
{
    reveal(store_bytes);
}

impl Store {
    /// Appends the encoding of this `Store` to `out`.
    pub fn serialize(&self, out: &mut Vec<u8>)
        requires
            store_ok(self@),
        ensures
            final(out)@ == old(out)@ + store_bytes(self@),
    {
        reveal(store_bytes);
        let ghost x = out@;
        put_account_type(out, self.account_type);
        let ghost x0 = out@;
        put_key(out, &self.authority);
        let ghost x1 = out@;
        put_u64(out, self.redemptions_count);
        let ghost x2 = out@;
        put_u64(out, self.editions_count);
        let ghost x3 = out@;
        put_u64(out, self.pass_collection_count);
        let ghost x4 = out@;
        proof {
            lemma_concat_associative(x2, u64_bytes(self@.editions_count), u64_bytes(self@.pass_collection_count));
            lemma_concat_associative(x1, u64_bytes(self@.redemptions_count), u64_bytes(self@.editions_count) + (u64_bytes(self@.pass_collection_count)));
            lemma_concat_associative(x0, self@.authority, u64_bytes(self@.redemptions_count) + (u64_bytes(self@.editions_count) + (u64_bytes(self@.pass_collection_count))));
            lemma_concat_associative(x, account_type_bytes(self@.account_type), self@.authority + (u64_bytes(self@.redemptions_count) + (u64_bytes(self@.editions_count) + (u64_bytes(self@.pass_collection_count)))));
        }
        assert(out@ == x + store_bytes(self@));
    }

    /// Reads a `Store` from `src` at `pos`; gives it and the position after it.
    pub fn deserialize(src: &[u8], pos: usize) -> (r: Option<(Self, usize)>)
        requires
            pos <= src@.len(),
        ensures
            read_agrees_view(src@, pos, r, read_store(rest_at(src@, pos)), |x: Store| x@),
    {
        reveal(read_store);
        let (account_type, p0) = match get_account_type(src, pos) {
            Some(x) => x,
            None => return None,
        };
        let (authority, p1) = match get_key(src, p0) {
            Some(x) => x,
            None => return None,
        };
        let (redemptions_count, p2) = match get_u64(src, p1) {
            Some(x) => x,
            None => return None,
        };
        let (editions_count, p3) = match get_u64(src, p2) {
            Some(x) => x,
            None => return None,
        };
        let (pass_collection_count, p4) = match get_u64(src, p3) {
            Some(x) => x,
            None => return None,
        };
        Some((Store { account_type, authority, redemptions_count, editions_count, pass_collection_count }, p4))
    }
}

/// How `Store::unpack_from_slice` reads account data: the first byte must be the
/// `Store` or `Uninitialized` tag and the data `MAX_PASS_LEN` bytes long; then the
/// fields are read from the front, and what follows them is ignored.
pub open spec fn store_from_slice(src: Seq<u8>) -> Result<StoreView, ProgramError> {
    if (src[0] != 2u8 && src[0] != 0u8) || src.len() != MAX_PASS_LEN {
        Err(ProgramError::InvalidAccountData)
    } else {
        match read_store(src) {
            Some((v, _)) => Ok(v),
            None => Err(ProgramError::BorshIoError),
        }
    }
}

/// How `Store::unpack_unchecked` reads account data of any length.
pub open spec fn store_unpack_unchecked(src: Seq<u8>) -> Result<StoreView, ProgramError> {
    if src.len() != MAX_PASS_LEN {
        Err(ProgramError::InvalidAccountData)
    } else {
        store_from_slice(src)
    }
}

/// How `Store::unpack` reads account data: as `unpack_unchecked`, and the account must
/// be initialized.
pub open spec fn store_unpack(src: Seq<u8>) -> Result<StoreView, ProgramError> {
    match store_unpack_unchecked(src) {
        Ok(v) => if v.account_type == AccountType::Store {
            Ok(v)
        } else {
            Err(ProgramError::UninitializedAccount)
        },
        Err(e) => Err(e),
    }
}

/// Data written by `Store::pack` reads back as the value that was packed.
pub proof fn lemma_store_unpack_packed(v: StoreView, tail: Seq<u8>)
    requires
        store_ok(v),
        (store_bytes(v) + tail).len() == MAX_PASS_LEN,
    ensures
        v.account_type == AccountType::Store || v.account_type == AccountType::Uninitialized
            ==> store_unpack_unchecked(store_bytes(v) + tail) == Ok::<StoreView, ProgramError>(v),
        v.account_type == AccountType::Store ==> store_unpack(store_bytes(v) + tail) == Ok::<StoreView, ProgramError>(v),
        v.account_type == AccountType::Uninitialized ==> store_unpack(store_bytes(v) + tail)
            == Err::<StoreView, ProgramError>(ProgramError::UninitializedAccount),
{
    lemma_read_store(v, tail);
    reveal(store_bytes);
    assert((store_bytes(v) + tail)[0] == account_type_tag(v.account_type));
}

impl Store {
    /// Writes the encoding of this `Store` over the front of `dst`.
    pub fn pack_into_slice(&self, dst: &mut [u8])
        requires
            store_ok(self@),
            store_bytes(self@).len() <= old(dst)@.len(),
        ensures
            final(dst)@ == store_bytes(self@) + old(dst)@.skip(store_bytes(self@).len() as int),
    {
        let mut buf: Vec<u8> = Vec::new();
        self.serialize(&mut buf);
        copy_to_front(dst, &buf);
    }

    /// Reads a `Store` from account data whose first byte is its tag or `Uninitialized`.
    pub fn unpack_from_slice(src: &[u8]) -> (r: Result<Self, ProgramError>)
        requires
            src@.len() > 0,
        ensures
            view_result(r) == store_from_slice(src@),
    {
        if (src[0] != 2 && src[0] != 0) || src.len() != MAX_PASS_LEN {
            return Err(ProgramError::InvalidAccountData);
        }
        assert(rest_at(src@, 0) =~= src@);
        match Self::deserialize(src, 0) {
            Some((v, _)) => Ok(v),
            None => Err(ProgramError::BorshIoError),
        }
    }

    /// Reads a `Store` from account data of the packed length.
    pub fn unpack_unchecked(src: &[u8]) -> (r: Result<Self, ProgramError>)
        ensures
            view_result(r) == store_unpack_unchecked(src@),
    {
        if src.len() != MAX_PASS_LEN {
            return Err(ProgramError::InvalidAccountData);
        }
        Self::unpack_from_slice(src)
    }

    /// Reads an initialized `Store` from account data of the packed length.
    pub fn unpack(src: &[u8]) -> (r: Result<Self, ProgramError>)
        ensures
            view_result(r) == store_unpack(src@),
    {
        let v = Self::unpack_unchecked(src)?;
        if v.is_initialized() {
            Ok(v)
        } else {
            Err(ProgramError::UninitializedAccount)
        }
    }

    /// Writes `src` over the front of `dst`, which must be `MAX_PASS_LEN` bytes long.
    pub fn pack(src: Self, dst: &mut [u8]) -> (r: Result<(), ProgramError>)
        requires
            store_ok(src@),
            old(dst)@.len() == MAX_PASS_LEN ==> store_bytes(src@).len() <= MAX_PASS_LEN,
        ensures
            old(dst)@.len() != MAX_PASS_LEN ==> r == Err::<(), ProgramError>(ProgramError::InvalidAccountData)
                && final(dst)@ == old(dst)@,
            old(dst)@.len() == MAX_PASS_LEN ==> r == Ok::<(), ProgramError>(())
                && final(dst)@ == store_bytes(src@) + old(dst)@.skip(store_bytes(src@).len() as int),
    {
        if dst.len() != MAX_PASS_LEN {
            return Err(ProgramError::InvalidAccountData);
        }
        src.pack_into_slice(dst);
        Ok(())
    }

}

impl IsInitialized for Store {
    open spec fn initialized(&self) -> bool {
        self.account_type == AccountType::Store
    }

    fn is_initialized(&self) -> (r: bool) {
        self.account_type != AccountType::Uninitialized && self.account_type == AccountType::Store
    }
}

/// Data that `Store::unpack_unchecked` reads is the encoding of the value read, then
/// bytes that it ignores: packing the value again leaves the data as it was.
pub proof fn lemma_store_unpack_inverse(src: Seq<u8>)
    ensures
        store_unpack_unchecked(src) matches Ok(v) ==> store_ok(v) && store_bytes(v).len() <= src.len()
            && store_bytes(v) + src.skip(store_bytes(v).len() as int) == src,
{
    lemma_read_store_inverse(src);
    if let Ok(v) = store_unpack_unchecked(src) {
        lemma_skip_front(store_bytes(v), read_store(src)->Some_0.1);
    }
}

impl Store {
    /// Seed of store addresses.
    pub const PREFIX: &'static str = "store";

    /// Initializes the store of `authority` with all counts at zero.
    pub fn init(&mut self, authority: Pubkey)
        ensures
            final(self)@ == (StoreView {
                account_type: AccountType::Store,
                authority: authority@,
                redemptions_count: 0,
                editions_count: 0,
                pass_collection_count: 0,
            }),
    {
        self.account_type = AccountType::Store;
        self.authority = authority;
        self.redemptions_count = 0;
        self.editions_count = 0;
        self.pass_collection_count = 0;
    }

    /// Increment the total editions redeemed
    pub fn increment_redemptions_count(&mut self) -> (r: Result<(), ProgramError>)
        ensures
            old(self).redemptions_count < u64::MAX ==> r is Ok && final(self)@ == (StoreView {
                redemptions_count: (old(self).redemptions_count + 1) as u64,
                ..old(self)@
            }),
            old(self).redemptions_count == u64::MAX ==> r == Err::<(), ProgramError>(
                program_error_of(NFTPassError::Overflow),
            ) && final(self)@ == old(self)@,
    {
        self.redemptions_count = error_increment(self.redemptions_count)?;
        Ok(())
    }

    /// Increment the total number of editions printed
    pub fn increment_editions_count(&mut self) -> (r: Result<(), ProgramError>)
        ensures
            old(self).editions_count < u64::MAX ==> r is Ok && final(self)@ == (StoreView {
                editions_count: (old(self).editions_count + 1) as u64,
                ..old(self)@
            }),
            old(self).editions_count == u64::MAX ==> r == Err::<(), ProgramError>(
                program_error_of(NFTPassError::Overflow),
            ) && final(self)@ == old(self)@,
    {
        self.editions_count = error_increment(self.editions_count)?;
        Ok(())
    }

    /// Increment the total number of master edition passes
    pub fn increment_pass_collection_count(&mut self) -> (r: Result<(), ProgramError>)
        ensures
            old(self).pass_collection_count < u64::MAX ==> r is Ok && final(self)@ == (StoreView {
                pass_collection_count: (old(self).pass_collection_count + 1) as u64,
                ..old(self)@
            }),
            old(self).pass_collection_count == u64::MAX ==> r == Err::<(), ProgramError>(
                program_error_of(NFTPassError::Overflow),
            ) && final(self)@ == old(self)@,
    {
        self.pass_collection_count = error_increment(self.pass_collection_count)?;
        Ok(())
    }
}

} // verus!
