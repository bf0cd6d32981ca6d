//! The store of a pass book authority, and store authority records.

use vstd::prelude::*;

use crate::codec::{
    copy_to_front, get_key, get_opt_key, get_opt_u64, get_u64, get_u8, lemma_read_key,
    lemma_read_opt_key, lemma_read_opt_u64, lemma_read_u64, lemma_read_u8, lemma_read_key_inverse,
    lemma_read_opt_key_inverse, lemma_read_opt_u64_inverse, lemma_read_u64_inverse,
    lemma_read_u8_inverse, lemma_skip_front, opt_key_bytes, opt_key_ok, opt_key_view,
    opt_u64_bytes, put_key, put_opt_key, put_opt_u64, put_u64, put_u8, read_agrees_view, read_key,
    read_opt_key, read_opt_u64, read_u64, read_u8, rest_at, u64_bytes,
};
use vstd::seq_lib::lemma_concat_associative;
use crate::error::{program_error_of, view_result, NFTPassError, ProgramError};
use crate::pubkey::Pubkey;
use crate::utils::error_increment;
use crate::state::{
    account_type_bytes, account_type_tag, get_account_type, lemma_read_account_type,
    lemma_read_account_type_inverse, put_account_type, read_account_type, AccountType,
    IsInitialized,
};
use crate::state::STORE_AUTHORITY_LENGTH;

verus! {

/// Length of the data of a store account.
pub const MAX_STORE_LEN: usize = 1 + 32 + 8 + 8 + 8 + 8 + 8 + 33 + 9;

/// Pass Store
#[derive(Clone, Debug, PartialEq, Default)]
pub struct Store {
    /// Account type - Store
    pub account_type: AccountType,
    /// Authority of this store
    pub authority: Pubkey,
    /// count of editions redeemed
    pub redemptions_count: u64,
    /// count of memberships created
    pub membership_count: u64,
    /// count of active membership
    pub active_membership_count: u64,
    /// count of passes created
    pub pass_count: u64,
    /// count of master edition passes belonging to this store
    pub pass_book_count: u64,
    /// referrer wallet
    pub referrer: Option<Pubkey>,
    /// Date referral rewards end
    pub referral_end_date: Option<u64>,
}

/// `Store` with its addresses as bytes and its texts as characters.
pub struct StoreView {
    pub account_type: AccountType,
    pub authority: Seq<u8>,
    pub redemptions_count: u64,
    pub membership_count: u64,
    pub active_membership_count: u64,
    pub pass_count: u64,
    pub pass_book_count: u64,
    pub referrer: Option<Seq<u8>>,
    pub referral_end_date: Option<u64>,
}

impl View for Store {
    type V = StoreView;

    open spec fn view(&self) -> StoreView {
        StoreView {
            account_type: self.account_type,
            authority: self.authority@,
            redemptions_count: self.redemptions_count,
            membership_count: self.membership_count,
            active_membership_count: self.active_membership_count,
            pass_count: self.pass_count,
            pass_book_count: self.pass_book_count,
            referrer: opt_key_view(self.referrer),
            referral_end_date: self.referral_end_date,
        }
    }
}

/// The values of `Store` that the format can hold: addresses of 32 bytes, texts
/// of at most `u32::MAX` bytes.
pub open spec fn store_ok(v: StoreView) -> bool {
    v.authority.len() == 32
    && opt_key_ok(v.referrer)
}

/// The encoding of a `Store`: its fields in order.
#[verifier::opaque]
pub open spec fn store_bytes(v: StoreView) -> Seq<u8> {
    account_type_bytes(v.account_type) + (v.authority + (u64_bytes(v.redemptions_count) + (u64_bytes(v.membership_count) + (u64_bytes(v.active_membership_count) + (u64_bytes(v.pass_count) + (u64_bytes(v.pass_book_count) + (opt_key_bytes(v.referrer) + (opt_u64_bytes(v.referral_end_date)))))))))
}

/// Reads the fields of a `Store` in order.
#[verifier::opaque]
pub open spec fn read_store(s: Seq<u8>) -> Option<(StoreView, Seq<u8>)> {
    match read_account_type(s) {
        Some((account_type, r0)) => {
            match read_key(r0) {
                Some((authority, r1)) => {
                    match read_u64(r1) {
                        Some((redemptions_count, r2)) => {
                            match read_u64(r2) {
                                Some((membership_count, r3)) => {
                                    match read_u64(r3) {
                                        Some((active_membership_count, r4)) => {
                                            match read_u64(r4) {
                                                Some((pass_count, r5)) => {
                                                    match read_u64(r5) {
                                                        Some((pass_book_count, r6)) => {
                                                            match read_opt_key(r6) {
                                                                Some((referrer, r7)) => {
                                                                    match read_opt_u64(r7) {
                                                                        Some((referral_end_date, r8)) => {
                                                                            Some((StoreView { account_type, authority, redemptions_count, membership_count, active_membership_count, pass_count, pass_book_count, referrer, referral_end_date }, r8))
                                                                        },
                                                                        None => None,
                                                                    }
                                                                },
                                                                None => None,
                                                            }
                                                        },
                                                        None => None,
                                                    }
                                                },
                                                None => None,
                                            }
                                        },
                                        None => None,
                                    }
                                },
                                None => None,
                            }
                        },
                        None => None,
                    }
                },
                None => None,
            }
        },
        None => None,
    }
}

/// Reading the encoding of a `Store` gives it back and leaves what followed.
pub proof fn lemma_read_store(v: StoreView, rest: Seq<u8>)
    requires
        store_ok(v),
    ensures
        read_store(store_bytes(v) + rest) == Some((v, rest)),
{
    reveal(store_bytes);
    reveal(read_store);
    let q9 = rest;
    let q8 = opt_u64_bytes(v.referral_end_date) + q9;
    let q7 = opt_key_bytes(v.referrer) + q8;
    let q6 = u64_bytes(v.pass_book_count) + q7;
    let q5 = u64_bytes(v.pass_count) + q6;
    let q4 = u64_bytes(v.active_membership_count) + q5;
    let q3 = u64_bytes(v.membership_count) + q4;
    let q2 = u64_bytes(v.redemptions_count) + q3;
    let q1 = v.authority + q2;
    let q0 = account_type_bytes(v.account_type) + q1;
    lemma_concat_associative(opt_key_bytes(v.referrer), opt_u64_bytes(v.referral_end_date), rest);
    lemma_concat_associative(u64_bytes(v.pass_book_count), opt_key_bytes(v.referrer) + (opt_u64_bytes(v.referral_end_date)), rest);
    lemma_concat_associative(u64_bytes(v.pass_count), u64_bytes(v.pass_book_count) + (opt_key_bytes(v.referrer) + (opt_u64_bytes(v.referral_end_date))), rest);
    lemma_concat_associative(u64_bytes(v.active_membership_count), u64_bytes(v.pass_count) + (u64_bytes(v.pass_book_count) + (opt_key_bytes(v.referrer) + (opt_u64_bytes(v.referral_end_date)))), rest);
    lemma_concat_associative(u64_bytes(v.membership_count), u64_bytes(v.active_membership_count) + (u64_bytes(v.pass_count) + (u64_bytes(v.pass_book_count) + (opt_key_bytes(v.referrer) + (opt_u64_bytes(v.referral_end_date))))), rest);
    lemma_concat_associative(u64_bytes(v.redemptions_count), u64_bytes(v.membership_count) + (u64_bytes(v.active_membership_count) + (u64_bytes(v.pass_count) + (u64_bytes(v.pass_book_count) + (opt_key_bytes(v.referrer) + (opt_u64_bytes(v.referral_end_date)))))), rest);
    lemma_concat_associative(v.authority, u64_bytes(v.redemptions_count) + (u64_bytes(v.membership_count) + (u64_bytes(v.active_membership_count) + (u64_bytes(v.pass_count) + (u64_bytes(v.pass_book_count) + (opt_key_bytes(v.referrer) + (opt_u64_bytes(v.referral_end_date))))))), rest);
    lemma_concat_associative(account_type_bytes(v.account_type), v.authority + (u64_bytes(v.redemptions_count) + (u64_bytes(v.membership_count) + (u64_bytes(v.active_membership_count) + (u64_bytes(v.pass_count) + (u64_bytes(v.pass_book_count) + (opt_key_bytes(v.referrer) + (opt_u64_bytes(v.referral_end_date)))))))), rest);
    assert(store_bytes(v) + rest == q0);
    lemma_read_account_type(v.account_type, q1);
    lemma_read_key(v.authority, q2);
    lemma_read_u64(v.redemptions_count, q3);
    lemma_read_u64(v.membership_count, q4);
    lemma_read_u64(v.active_membership_count, q5);
    lemma_read_u64(v.pass_count, q6);
    lemma_read_u64(v.pass_book_count, q7);
    lemma_read_opt_key(v.referrer, q8);
    lemma_read_opt_u64(v.referral_end_date, q9);
}

/// A successful read of a `Store` consumed exactly its encoding.
pub proof fn lemma_read_store_inverse(s: Seq<u8>)
    ensures
        read_store(s) matches Some((v, r)) ==> store_ok(v) && store_bytes(v) + r == s,
{
    reveal(store_bytes);
    reveal(read_store);
    if let Some((v, r)) = read_store(s) {
        lemma_read_account_type_inverse(s);
        let s1 = read_account_type(s)->Some_0.1;
        lemma_read_key_inverse(s1);
        let s2 = read_key(s1)->Some_0.1;
        lemma_read_u64_inverse(s2);
        let s3 = read_u64(s2)->Some_0.1;
        lemma_read_u64_inverse(s3);
        let s4 = read_u64(s3)->Some_0.1;
        lemma_read_u64_inverse(s4);
        let s5 = read_u64(s4)->Some_0.1;
        lemma_read_u64_inverse(s5);
        let s6 = read_u64(s5)->Some_0.1;
        lemma_read_u64_inverse(s6);
        let s7 = read_u64(s6)->Some_0.1;
        lemma_read_opt_key_inverse(s7);
        let s8 = read_opt_key(s7)->Some_0.1;
        lemma_read_opt_u64_inverse(s8);
        let s9 = read_opt_u64(s8)->Some_0.1;
        lemma_concat_associative(opt_key_bytes(v.referrer), opt_u64_bytes(v.referral_end_date), r);
        lemma_concat_associative(u64_bytes(v.pass_book_count), opt_key_bytes(v.referrer) + (opt_u64_bytes(v.referral_end_date)), r);
        lemma_concat_associative(u64_bytes(v.pass_count), u64_bytes(v.pass_book_count) + (opt_key_bytes(v.referrer) + (opt_u64_bytes(v.referral_end_date))), r);
        lemma_concat_associative(u64_bytes(v.active_membership_count), u64_bytes(v.pass_count) + (u64_bytes(v.pass_book_count) + (opt_key_bytes(v.referrer) + (opt_u64_bytes(v.referral_end_date)))), r);
        lemma_concat_associative(u64_bytes(v.membership_count), u64_bytes(v.active_membership_count) + (u64_bytes(v.pass_count) + (u64_bytes(v.pass_book_count) + (opt_key_bytes(v.referrer) + (opt_u64_bytes(v.referral_end_date))))), r);
        lemma_concat_associative(u64_bytes(v.redemptions_count), u64_bytes(v.membership_count) + (u64_bytes(v.active_membership_count) + (u64_bytes(v.pass_count) + (u64_bytes(v.pass_book_count) + (opt_key_bytes(v.referrer) + (opt_u64_bytes(v.referral_end_date)))))), r);
        lemma_concat_associative(v.authority, u64_bytes(v.redemptions_count) + (u64_bytes(v.membership_count) + (u64_bytes(v.active_membership_count) + (u64_bytes(v.pass_count) + (u64_bytes(v.pass_book_count) + (opt_key_bytes(v.referrer) + (opt_u64_bytes(v.referral_end_date))))))), r);
        lemma_concat_associative(account_type_bytes(v.account_type), v.authority + (u64_bytes(v.redemptions_count) + (u64_bytes(v.membership_count) + (u64_bytes(v.active_membership_count) + (u64_bytes(v.pass_count) + (u64_bytes(v.pass_book_count) + (opt_key_bytes(v.referrer) + (opt_u64_bytes(v.referral_end_date)))))))), r);
    }
}

/// The length of the encoding of a `Store`: the lengths of its fields added up.
pub proof fn lemma_store_bytes_len(v: StoreView)
    ensures
        store_bytes(v).len() == (account_type_bytes(v.account_type)).len() + (v.authority).len() + (u64_bytes(v.redemptions_count)).len() + (u64_bytes(v.membership_count)).len() + (u64_bytes(v.active_membership_count)).len() + (u64_bytes(v.pass_count)).len() + (u64_bytes(v.pass_book_count)).len() + (opt_key_bytes(v.referrer)).len() + (opt_u64_bytes(v.referral_end_date)).len(),
{
    reveal(store_bytes);
}

impl Store {
    /// Appends the encoding of this `Store` to `out`.
    pub fn serialize(&self, out: &mut Vec<u8>)
        requires
            store_ok(self@),
        ensures
            final(out)@ == old(out)@ + store_bytes(self@),
    {
        reveal(store_bytes);
        let ghost x = out@;
        put_account_type(out, self.account_type);
        let ghost x0 = out@;
        put_key(out, &self.authority);
        let ghost x1 = out@;
        put_u64(out, self.redemptions_count);
        let ghost x2 = out@;
        put_u64(out, self.membership_count);
        let ghost x3 = out@;
        put_u64(out, self.active_membership_count);
        let ghost x4 = out@;
        put_u64(out, self.pass_count);
        let ghost x5 = out@;
        put_u64(out, self.pass_book_count);
        let ghost x6 = out@;
        put_opt_key(out, &self.referrer);
        let ghost x7 = out@;
        put_opt_u64(out, self.referral_end_date);
        let ghost x8 = out@;
        proof {
            lemma_concat_associative(x6, opt_key_bytes(self@.referrer), opt_u64_bytes(self@.referral_end_date));
            lemma_concat_associative(x5, u64_bytes(self@.pass_book_count), opt_key_bytes(self@.referrer) + (opt_u64_bytes(self@.referral_end_date)));
            lemma_concat_associative(x4, u64_bytes(self@.pass_count), u64_bytes(self@.pass_book_count) + (opt_key_bytes(self@.referrer) + (opt_u64_bytes(self@.referral_end_date))));
            lemma_concat_associative(x3, u64_bytes(self@.active_membership_count), u64_bytes(self@.pass_count) + (u64_bytes(self@.pass_book_count) + (opt_key_bytes(self@.referrer) + (opt_u64_bytes(self@.referral_end_date)))));
            lemma_concat_associative(x2, u64_bytes(self@.membership_count), u64_bytes(self@.active_membership_count) + (u64_bytes(self@.pass_count) + (u64_bytes(self@.pass_book_count) + (opt_key_bytes(self@.referrer) + (opt_u64_bytes(self@.referral_end_date))))));
            lemma_concat_associative(x1, u64_bytes(self@.redemptions_count), u64_bytes(self@.membership_count) + (u64_bytes(self@.active_membership_count) + (u64_bytes(self@.pass_count) + (u64_bytes(self@.pass_book_count) + (opt_key_bytes(self@.referrer) + (opt_u64_bytes(self@.referral_end_date)))))));
            lemma_concat_associative(x0, self@.authority, u64_bytes(self@.redemptions_count) + (u64_bytes(self@.membership_count) + (u64_bytes(self@.active_membership_count) + (u64_bytes(self@.pass_count) + (u64_bytes(self@.pass_book_count) + (opt_key_bytes(self@.referrer) + (opt_u64_bytes(self@.referral_end_date))))))));
            lemma_concat_associative(x, account_type_bytes(self@.account_type), self@.authority + (u64_bytes(self@.redemptions_count) + (u64_bytes(self@.membership_count) + (u64_bytes(self@.active_membership_count) + (u64_bytes(self@.pass_count) + (u64_bytes(self@.pass_book_count) + (opt_key_bytes(self@.referrer) + (opt_u64_bytes(self@.referral_end_date)))))))));
        }
        assert(out@ == x + store_bytes(self@));
    }

    /// Reads a `Store` from `src` at `pos`; gives it and the position after it.
    pub fn deserialize(src: &[u8], pos: usize) -> (r: Option<(Self, usize)>)
        requires
            pos <= src@.len(),
        ensures
            read_agrees_view(src@, pos, r, read_store(rest_at(src@, pos)), |x: Store| x@),
    {
        reveal(read_store);
        let (account_type, p0) = match get_account_type(src, pos) {
            Some(x) => x,
            None => return None,
        };
        let (authority, p1) = match get_key(src, p0) {
            Some(x) => x,
            None => return None,
        };
        let (redemptions_count, p2) = match get_u64(src, p1) {
            Some(x) => x,
            None => return None,
        };
        let (membership_count, p3) = match get_u64(src, p2) {
            Some(x) => x,
            None => return None,
        };
        let (active_membership_count, p4) = match get_u64(src, p3) {
            Some(x) => x,
            None => return None,
        };
        let (pass_count, p5) = match get_u64(src, p4) {
            Some(x) => x,
            None => return None,
        };
        let (pass_book_count, p6) = match get_u64(src, p5) {
            Some(x) => x,
            None => return None,
        };
        let (referrer, p7) = match get_opt_key(src, p6) {
            Some(x) => x,
            None => return None,
        };
        let (referral_end_date, p8) = match get_opt_u64(src, p7) {
            Some(x) => x,
            None => return None,
        };
        Some((Store { account_type, authority, redemptions_count, membership_count, active_membership_count, pass_count, pass_book_count, referrer, referral_end_date }, p8))
    }
}

/// How `Store::unpack_from_slice` reads account data: the first byte must be the
/// `Store` or `Uninitialized` tag and the data `MAX_STORE_LEN` bytes long; then the
/// fields are read from the front, and what follows them is ignored.
pub open spec fn store_from_slice(src: Seq<u8>) -> Result<StoreView, ProgramError> {
    if (src[0] != 2u8 && src[0] != 0u8) || src.len() != MAX_STORE_LEN {
        Err(ProgramError::InvalidAccountData)
    } else {
        match read_store(src) {
            Some((v, _)) => Ok(v),
            None => Err(ProgramError::BorshIoError),
        }
    }
}

/// How `Store::unpack_unchecked` reads account data of any length.
pub open spec fn store_unpack_unchecked(src: Seq<u8>) -> Result<StoreView, ProgramError> {
    if src.len() != MAX_STORE_LEN {
        Err(ProgramError::InvalidAccountData)
    } else {
        store_from_slice(src)
    }
}

/// How `Store::unpack` reads account data: as `unpack_unchecked`, and the account must
/// be initialized.
pub open spec fn store_unpack(src: Seq<u8>) -> Result<StoreView, ProgramError> {
    match store_unpack_unchecked(src) {
        Ok(v) => if v.account_type == AccountType::Store {
            Ok(v)
        } else {
            Err(ProgramError::UninitializedAccount)
        },
        Err(e) => Err(e),
    }
}

/// Data written by `Store::pack` reads back as the value that was packed.
pub proof fn lemma_store_unpack_packed(v: StoreView, tail: Seq<u8>)
    requires
        store_ok(v),
        (store_bytes(v) + tail).len() == MAX_STORE_LEN,
    ensures
        v.account_type == AccountType::Store || v.account_type == AccountType::Uninitialized
            ==> store_unpack_unchecked(store_bytes(v) + tail) == Ok::<StoreView, ProgramError>(v),
        v.account_type == AccountType::Store ==> store_unpack(store_bytes(v) + tail) == Ok::<StoreView, ProgramError>(v),
        v.account_type == AccountType::Uninitialized ==> store_unpack(store_bytes(v) + tail)
            == Err::<StoreView, ProgramError>(ProgramError::UninitializedAccount),
{
    lemma_read_store(v, tail);
    reveal(store_bytes);
    assert((store_bytes(v) + tail)[0] == account_type_tag(v.account_type));
}

impl Store {
    /// Writes the encoding of this `Store` over the front of `dst`.
    pub fn pack_into_slice(&self, dst: &mut [u8])
        requires
            store_ok(self@),
            store_bytes(self@).len() <= old(dst)@.len(),
        ensures
            final(dst)@ == store_bytes(self@) + old(dst)@.skip(store_bytes(self@).len() as int),
    {
        let mut buf: Vec<u8> = Vec::new();
        self.serialize(&mut buf);
        copy_to_front(dst, &buf);
    }

    /// Reads a `Store` from account data whose first byte is its tag or `Uninitialized`.
    pub fn unpack_from_slice(src: &[u8]) -> (r: Result<Self, ProgramError>)
        requires
            src@.len() > 0,
        ensures
            view_result(r) == store_from_slice(src@),
    {
        if (src[0] != 2 && src[0] != 0) || src.len() != MAX_STORE_LEN {
            return Err(ProgramError::InvalidAccountData);
        }
        assert(rest_at(src@, 0) =~= src@);
        match Self::deserialize(src, 0) {
            Some((v, _)) => Ok(v),
            None => Err(ProgramError::BorshIoError),
        }
    }

    /// Reads a `Store` from account data of the packed length.
    pub fn unpack_unchecked(src: &[u8]) -> (r: Result<Self, ProgramError>)
        ensures
            view_result(r) == store_unpack_unchecked(src@),
    {
        if src.len() != MAX_STORE_LEN {
            return Err(ProgramError::InvalidAccountData);
        }
        Self::unpack_from_slice(src)
    }

    /// Reads an initialized `Store` from account data of the packed length.
    pub fn unpack(src: &[u8]) -> (r: Result<Self, ProgramError>)
        ensures
            view_result(r) == store_unpack(src@),
    {
        let v = Self::unpack_unchecked(src)?;
        if v.is_initialized() {
            Ok(v)
        } else {
            Err(ProgramError::UninitializedAccount)
        }
    }

    /// Writes `src` over the front of `dst`, which must be `MAX_STORE_LEN` bytes long.
    pub fn pack(src: Self, dst: &mut [u8]) -> (r: Result<(), ProgramError>)
        requires
            store_ok(src@),
            old(dst)@.len() == MAX_STORE_LEN ==> store_bytes(src@).len() <= MAX_STORE_LEN,
        ensures
            old(dst)@.len() != MAX_STORE_LEN ==> r == Err::<(), ProgramError>(ProgramError::InvalidAccountData)
                && final(dst)@ == old(dst)@,
            old(dst)@.len() == MAX_STORE_LEN ==> r == Ok::<(), ProgramError>(())
                && final(dst)@ == store_bytes(src@) + old(dst)@.skip(store_bytes(src@).len() as int),
    {
        if dst.len() != MAX_STORE_LEN {
            return Err(ProgramError::InvalidAccountData);
        }
        src.pack_into_slice(dst);
        Ok(())
    }

}

impl IsInitialized for Store {
    open spec fn initialized(&self) -> bool {
        self.account_type == AccountType::Store
    }

    fn is_initialized(&self) -> (r: bool) {
        self.account_type != AccountType::Uninitialized && self.account_type == AccountType::Store
    }
}

/// Data that `Store::unpack_unchecked` reads is the encoding of the value read, then
/// bytes that it ignores: packing the value again leaves the data as it was.
pub proof fn lemma_store_unpack_inverse(src: Seq<u8>)
    ensures
        store_unpack_unchecked(src) matches Ok(v) ==> store_ok(v) && store_bytes(v).len() <= src.len()
            && store_bytes(v) + src.skip(store_bytes(v).len() as int) == src,
{
    lemma_read_store_inverse(src);
    if let Ok(v) = store_unpack_unchecked(src) {
        lemma_skip_front(store_bytes(v), read_store(src)->Some_0.1);
    }
}

impl Store {
    /// Seed of store addresses.
    pub const PREFIX: &'static str = "store";

    /// Initializes the store of `authority` with all counts at zero; the referral
    /// fields stay as they are.
    pub fn init(&mut self, authority: Pubkey)
        ensures
            final(self)@ == (StoreView {
                account_type: AccountType::Store,
                authority: authority@,
                redemptions_count: 0,
                membership_count: 0,
                active_membership_count: 0,
                pass_count: 0,
                pass_book_count: 0,
                ..old(self)@
            }),
    {
        self.account_type = AccountType::Store;
        self.authority = authority;
        self.redemptions_count = 0;
        self.membership_count = 0;
        self.active_membership_count = 0;
        self.pass_count = 0;
        self.pass_book_count = 0;
    }

    /// Increment the total editions redeemed
    pub fn increment_redemptions_count(&mut self) -> (r: Result<(), ProgramError>)
        ensures
            old(self).redemptions_count < u64::MAX ==> r is Ok && final(self)@ == (StoreView {
                redemptions_count: (old(self).redemptions_count + 1) as u64,
                ..old(self)@
            }),
            old(self).redemptions_count == u64::MAX ==> r == Err::<(), ProgramError>(
                program_error_of(NFTPassError::Overflow),
            ) && final(self)@ == old(self)@,
    {
        self.redemptions_count = error_increment(self.redemptions_count)?;
        Ok(())
    }

    /// Increment the total number of memberships
    pub fn increment_membership_count(&mut self) -> (r: Result<(), ProgramError>)
        ensures
            old(self).membership_count < u64::MAX ==> r is Ok && final(self)@ == (StoreView {
                membership_count: (old(self).membership_count + 1) as u64,
                ..old(self)@
            }),
            old(self).membership_count == u64::MAX ==> r == Err::<(), ProgramError>(
                program_error_of(NFTPassError::Overflow),
            ) && final(self)@ == old(self)@,
    {
        self.membership_count = error_increment(self.membership_count)?;
        Ok(())
    }

    /// Increment the total number of passes issued
    pub fn increment_pass_count(&mut self) -> (r: Result<(), ProgramError>)
        ensures
            old(self).pass_count < u64::MAX ==> r is Ok && final(self)@ == (StoreView {
                pass_count: (old(self).pass_count + 1) as u64,
                ..old(self)@
            }),
            old(self).pass_count == u64::MAX ==> r == Err::<(), ProgramError>(
                program_error_of(NFTPassError::Overflow),
            ) && final(self)@ == old(self)@,
    {
        self.pass_count = error_increment(self.pass_count)?;
        Ok(())
    }

    /// Increment the total number of active memberships
    pub fn increment_active_membership_count(&mut self) -> (r: Result<(), ProgramError>)
        ensures
            old(self).active_membership_count < u64::MAX ==> r is Ok && final(self)@ == (StoreView {
                active_membership_count: (old(self).active_membership_count + 1) as u64,
                ..old(self)@
            }),
            old(self).active_membership_count == u64::MAX ==> r == Err::<(), ProgramError>(
                program_error_of(NFTPassError::Overflow),
            ) && final(self)@ == old(self)@,
    {
        self.active_membership_count = error_increment(self.active_membership_count)?;
        Ok(())
    }

    /// Increment the total number of pass books
    pub fn increment_pass_book_count(&mut self) -> (r: Result<(), ProgramError>)
        ensures
            old(self).pass_book_count < u64::MAX ==> r is Ok && final(self)@ == (StoreView {
                pass_book_count: (old(self).pass_book_count + 1) as u64,
                ..old(self)@
            }),
            old(self).pass_book_count == u64::MAX ==> r == Err::<(), ProgramError>(
                program_error_of(NFTPassError::Overflow),
            ) && final(self)@ == old(self)@,
    {
        self.pass_book_count = error_increment(self.pass_book_count)?;
        Ok(())
    }
}

/// Store authority record
#[derive(Clone, Debug, PartialEq)]
pub struct StoreAuthority {
    /// Account type - StoreAuthority
    pub account_type: AccountType,
    /// Store
    pub store: Pubkey,
    /// Number of redemptions allowed
    pub allowed_redemptions: u64,
    /// Bump seed of the address
    pub bump: u8,
}

/// `StoreAuthority` with its addresses as bytes and its texts as characters.
pub struct StoreAuthorityView {
    pub account_type: AccountType,
    pub store: Seq<u8>,
    pub allowed_redemptions: u64,
    pub bump: u8,
}

impl View for StoreAuthority {
    type V = StoreAuthorityView;

    open spec fn view(&self) -> StoreAuthorityView {
        StoreAuthorityView {
            account_type: self.account_type,
            store: self.store@,
            allowed_redemptions: self.allowed_redemptions,
            bump: self.bump,
        }
    }
}

/// The values of `StoreAuthority` that the format can hold: addresses of 32 bytes, texts
/// of at most `u32::MAX` bytes.
pub open spec fn store_authority_ok(v: StoreAuthorityView) -> bool {
    v.store.len() == 32
}

/// The encoding of a `StoreAuthority`: its fields in order.
#[verifier::opaque]
pub open spec fn store_authority_bytes(v: StoreAuthorityView) -> Seq<u8> {
    account_type_bytes(v.account_type) + (v.store + (u64_bytes(v.allowed_redemptions) + (seq![v.bump])))
}

/// Reads the fields of a `StoreAuthority` in order.
#[verifier::opaque]
pub open spec fn read_store_authority(s: Seq<u8>) -> Option<(StoreAuthorityView, Seq<u8>)> {
    match read_account_type(s) {
        Some((account_type, r0)) => {
            match read_key(r0) {
                Some((store, r1)) => {
                    match read_u64(r1) {
                        Some((allowed_redemptions, r2)) => {
                            match read_u8(r2) {
                                Some((bump, r3)) => {
                                    Some((StoreAuthorityView { account_type, store, allowed_redemptions, bump }, r3))
                                },
                                None => None,
                            }
                        },
                        None => None,
                    }
                },
                None => None,
            }
        },
        None => None,
    }
}

/// Reading the encoding of a `StoreAuthority` gives it back and leaves what followed.
pub proof fn lemma_read_store_authority(v: StoreAuthorityView, rest: Seq<u8>)
    requires
        store_authority_ok(v),
    ensures
        read_store_authority(store_authority_bytes(v) + rest) == Some((v, rest)),
{
    reveal(store_authority_bytes);
    reveal(read_store_authority);
    let q4 = rest;
    let q3 = seq![v.bump] + q4;
    let q2 = u64_bytes(v.allowed_redemptions) + q3;
    let q1 = v.store + q2;
    let q0 = account_type_bytes(v.account_type) + q1;
    lemma_concat_associative(u64_bytes(v.allowed_redemptions), seq![v.bump], rest);
    lemma_concat_associative(v.store, u64_bytes(v.allowed_redemptions) + (seq![v.bump]), rest);
    lemma_concat_associative(account_type_bytes(v.account_type), v.store + (u64_bytes(v.allowed_redemptions) + (seq![v.bump])), rest);
    assert(store_authority_bytes(v) + rest == q0);
    lemma_read_account_type(v.account_type, q1);
    lemma_read_key(v.store, q2);
    lemma_read_u64(v.allowed_redemptions, q3);
    lemma_read_u8(v.bump, q4);
}

/// A successful read of a `StoreAuthority` consumed exactly its encoding.
pub proof fn lemma_read_store_authority_inverse(s: Seq<u8>)
    ensures
        read_store_authority(s) matches Some((v, r)) ==> store_authority_ok(v) && store_authority_bytes(v) + r == s,
{
    reveal(store_authority_bytes);
    reveal(read_store_authority);
    if let Some((v, r)) = read_store_authority(s) {
        lemma_read_account_type_inverse(s);
        let s1 = read_account_type(s)->Some_0.1;
        lemma_read_key_inverse(s1);
        let s2 = read_key(s1)->Some_0.1;
        lemma_read_u64_inverse(s2);
        let s3 = read_u64(s2)->Some_0.1;
        lemma_read_u8_inverse(s3);
        let s4 = read_u8(s3)->Some_0.1;
        lemma_concat_associative(u64_bytes(v.allowed_redemptions), seq![v.bump], r);
        lemma_concat_associative(v.store, u64_bytes(v.allowed_redemptions) + (seq![v.bump]), r);
        lemma_concat_associative(account_type_bytes(v.account_type), v.store + (u64_bytes(v.allowed_redemptions) + (seq![v.bump])), r);
    }
}

/// The length of the encoding of a `StoreAuthority`: the lengths of its fields added up.
pub proof fn lemma_store_authority_bytes_len(v: StoreAuthorityView)
    ensures
        store_authority_bytes(v).len() == (account_type_bytes(v.account_type)).len() + (v.store).len() + (u64_bytes(v.allowed_redemptions)).len() + (seq![v.bump]).len(),
{
    reveal(store_authority_bytes);
}

impl StoreAuthority {
    /// Appends the encoding of this `StoreAuthority` to `out`.
    pub fn serialize(&self, out: &mut Vec<u8>)
        requires
            store_authority_ok(self@),
        ensures
            final(out)@ == old(out)@ + store_authority_bytes(self@),
    {
        reveal(store_authority_bytes);
        let ghost x = out@;
        put_account_type(out, self.account_type);
        let ghost x0 = out@;
        put_key(out, &self.store);
        let ghost x1 = out@;
        put_u64(out, self.allowed_redemptions);
        let ghost x2 = out@;
        put_u8(out, self.bump);
        let ghost x3 = out@;
        proof {
            lemma_concat_associative(x1, u64_bytes(self@.allowed_redemptions), seq![self@.bump]);
            lemma_concat_associative(x0, self@.store, u64_bytes(self@.allowed_redemptions) + (seq![self@.bump]));
            lemma_concat_associative(x, account_type_bytes(self@.account_type), self@.store + (u64_bytes(self@.allowed_redemptions) + (seq![self@.bump])));
        }
        assert(out@ == x + store_authority_bytes(self@));
    }

    /// Reads a `StoreAuthority` from `src` at `pos`; gives it and the position after it.
    pub fn deserialize(src: &[u8], pos: usize) -> (r: Option<(Self, usize)>)
        requires
            pos <= src@.len(),
        ensures
            read_agrees_view(src@, pos, r, read_store_authority(rest_at(src@, pos)), |x: StoreAuthority| x@),
    {
        reveal(read_store_authority);
        let (account_type, p0) = match get_account_type(src, pos) {
            Some(x) => x,
            None => return None,
        };
        let (store, p1) = match get_key(src, p0) {
            Some(x) => x,
            None => return None,
        };
        let (allowed_redemptions, p2) = match get_u64(src, p1) {
            Some(x) => x,
            None => return None,
        };
        let (bump, p3) = match get_u8(src, p2) {
            Some(x) => x,
            None => return None,
        };
        Some((StoreAuthority { account_type, store, allowed_redemptions, bump }, p3))
    }
}

/// How `StoreAuthority::unpack_from_slice` reads account data: the first byte must be the
/// `StoreAuthority` or `Uninitialized` tag and the data `STORE_AUTHORITY_LENGTH` bytes long; then the
/// fields are read from the front, and what follows them is ignored.
pub open spec fn store_authority_from_slice(src: Seq<u8>) -> Result<StoreAuthorityView, ProgramError> {
    if (src[0] != 8u8 && src[0] != 0u8) || src.len() != STORE_AUTHORITY_LENGTH {
        Err(ProgramError::InvalidAccountData)
    } else {
        match read_store_authority(src) {
            Some((v, _)) => Ok(v),
            None => Err(ProgramError::BorshIoError),
        }
    }
}

/// How `StoreAuthority::unpack_unchecked` reads account data of any length.
pub open spec fn store_authority_unpack_unchecked(src: Seq<u8>) -> Result<StoreAuthorityView, ProgramError> {
    if src.len() != STORE_AUTHORITY_LENGTH {
        Err(ProgramError::InvalidAccountData)
    } else {
        store_authority_from_slice(src)
    }
}

/// How `StoreAuthority::unpack` reads account data: as `unpack_unchecked`, and the account must
/// be initialized.
pub open spec fn store_authority_unpack(src: Seq<u8>) -> Result<StoreAuthorityView, ProgramError> {
    match store_authority_unpack_unchecked(src) {
        Ok(v) => if v.account_type == AccountType::StoreAuthority {
            Ok(v)
        } else {
            Err(ProgramError::UninitializedAccount)
        },
        Err(e) => Err(e),
    }
}

/// Data written by `StoreAuthority::pack` reads back as the value that was packed.
pub proof fn lemma_store_authority_unpack_packed(v: StoreAuthorityView, tail: Seq<u8>)
    requires
        store_authority_ok(v),
        (store_authority_bytes(v) + tail).len() == STORE_AUTHORITY_LENGTH,
    ensures
        v.account_type == AccountType::StoreAuthority || v.account_type == AccountType::Uninitialized
            ==> store_authority_unpack_unchecked(store_authority_bytes(v) + tail) == Ok::<StoreAuthorityView, ProgramError>(v),
        v.account_type == AccountType::StoreAuthority ==> store_authority_unpack(store_authority_bytes(v) + tail) == Ok::<StoreAuthorityView, ProgramError>(v),
        v.account_type == AccountType::Uninitialized ==> store_authority_unpack(store_authority_bytes(v) + tail)
            == Err::<StoreAuthorityView, ProgramError>(ProgramError::UninitializedAccount),
{
    lemma_read_store_authority(v, tail);
    reveal(store_authority_bytes);
    assert((store_authority_bytes(v) + tail)[0] == account_type_tag(v.account_type));
}

impl StoreAuthority {
    /// Writes the encoding of this `StoreAuthority` over the front of `dst`.
    pub fn pack_into_slice(&self, dst: &mut [u8])
        requires
            store_authority_ok(self@),
            store_authority_bytes(self@).len() <= old(dst)@.len(),
        ensures
            final(dst)@ == store_authority_bytes(self@) + old(dst)@.skip(store_authority_bytes(self@).len() as int),
    {
        let mut buf: Vec<u8> = Vec::new();
        self.serialize(&mut buf);
        copy_to_front(dst, &buf);
    }

    /// Reads a `StoreAuthority` from account data whose first byte is its tag or `Uninitialized`.
    pub fn unpack_from_slice(src: &[u8]) -> (r: Result<Self, ProgramError>)
        requires
            src@.len() > 0,
        ensures
            view_result(r) == store_authority_from_slice(src@),
    {
        if (src[0] != 8 && src[0] != 0) || src.len() != STORE_AUTHORITY_LENGTH {
            return Err(ProgramError::InvalidAccountData);
        }
        assert(rest_at(src@, 0) =~= src@);
        match Self::deserialize(src, 0) {
            Some((v, _)) => Ok(v),
            None => Err(ProgramError::BorshIoError),
        }
    }

    /// Reads a `StoreAuthority` from account data of the packed length.
    pub fn unpack_unchecked(src: &[u8]) -> (r: Result<Self, ProgramError>)
        ensures
            view_result(r) == store_authority_unpack_unchecked(src@),
    {
        if src.len() != STORE_AUTHORITY_LENGTH {
            return Err(ProgramError::InvalidAccountData);
        }
        Self::unpack_from_slice(src)
    }

    /// Reads an initialized `StoreAuthority` from account data of the packed length.
    pub fn unpack(src: &[u8]) -> (r: Result<Self, ProgramError>)
        ensures
            view_result(r) == store_authority_unpack(src@),
    {
        let v = Self::unpack_unchecked(src)?;
        if v.is_initialized() {
            Ok(v)
        } else {
            Err(ProgramError::UninitializedAccount)
        }
    }

    /// Writes `src` over the front of `dst`, which must be `STORE_AUTHORITY_LENGTH` bytes long.
    pub fn pack(src: Self, dst: &mut [u8]) -> (r: Result<(), ProgramError>)
        requires
            store_authority_ok(src@),
            old(dst)@.len() == STORE_AUTHORITY_LENGTH ==> store_authority_bytes(src@).len() <= STORE_AUTHORITY_LENGTH,
        ensures
            old(dst)@.len() != STORE_AUTHORITY_LENGTH ==> r == Err::<(), ProgramError>(ProgramError::InvalidAccountData)
                && final(dst)@ == old(dst)@,
            old(dst)@.len() == STORE_AUTHORITY_LENGTH ==> r == Ok::<(), ProgramError>(())
                && final(dst)@ == store_authority_bytes(src@) + old(dst)@.skip(store_authority_bytes(src@).len() as int),
    {
        if dst.len() != STORE_AUTHORITY_LENGTH {
            return Err(ProgramError::InvalidAccountData);
        }
        src.pack_into_slice(dst);
        Ok(())
    }

}

impl IsInitialized for StoreAuthority {
    open spec fn initialized(&self) -> bool {
        self.account_type == AccountType::StoreAuthority
    }

    fn is_initialized(&self) -> (r: bool) {
        self.account_type != AccountType::Uninitialized && self.account_type == AccountType::StoreAuthority
    }
}

/// Data that `StoreAuthority::unpack_unchecked` reads is the encoding of the value read, then
/// bytes that it ignores: packing the value again leaves the data as it was.
pub proof fn lemma_store_authority_unpack_inverse(src: Seq<u8>)
    ensures
        store_authority_unpack_unchecked(src) matches Ok(v) ==> store_authority_ok(v) && store_authority_bytes(v).len() <= src.len()
            && store_authority_bytes(v) + src.skip(store_authority_bytes(v).len() as int) == src,
{
    lemma_read_store_authority_inverse(src);
    if let Ok(v) = store_authority_unpack_unchecked(src) {
        lemma_skip_front(store_authority_bytes(v), read_store_authority(src)->Some_0.1);
    }
}

impl StoreAuthority {
    /// Seed of store authority addresses.
    pub const PREFIX: &'static str = "admin";

    /// Initializes a store authority record; the allowed redemptions stay as they are.
    pub fn init(&mut self, store: Pubkey, bump: u8)
        ensures
            final(self)@ == (StoreAuthorityView {
                account_type: AccountType::StoreAuthority,
                store: store@,
                bump,
                ..old(self)@
            }),
    {
        self.account_type = AccountType::StoreAuthority;
        self.store = store;
        self.bump = bump;
    }
}

} // verus!
