//! Payout accounts: where the share of one recipient of sales is paid in.

use vstd::prelude::*;

use crate::codec::{
    copy_to_front, get_key, get_u64, lemma_read_key, lemma_read_u64, lemma_read_key_inverse,
    lemma_read_u64_inverse, lemma_skip_front, put_key, put_u64, read_agrees_view, read_key,
    read_u64, rest_at, u64_bytes,
};
use vstd::seq_lib::lemma_concat_associative;
use crate::error::{fail, program_error_of, view_result, NFTPassError, ProgramError};
use crate::pubkey::Pubkey;

use crate::state::{
    account_type_bytes, account_type_tag, get_account_type, lemma_read_account_type,
    lemma_read_account_type_inverse, put_account_type, read_account_type, AccountType,
    IsInitialized,
};

verus! {

/// The accounts of one payout recipient, as instructions list them.
#[derive(Debug)]
pub struct PayoutInfoArgs {
    pub authority: Pubkey,
    pub payout_account: Pubkey,
    pub token_account: Pubkey,
}

/// maximum number of balances to hold
pub const MAX_NUM_BALANCES: usize = 10;

pub const MAX_BALANCE_LEN: usize = 1 + 32 + 8 + 8;

/// Length of the data of a payout account.
pub const MAX_PAYOUT_LEN: usize = 1 + 32 + 32 + 32 + 4 + 16;

/// Payout Account
#[derive(Clone, Debug, PartialEq, Default)]
pub struct Payout {
    /// Account type - Payout
    pub account_type: AccountType,
    /// Authority of this account
    pub authority: Pubkey,
    /// mint for this payout
    pub mint: Pubkey,
    /// token of this account
    pub treasury_holder: Pubkey,
    /// total balance paid in
    pub cash_in: u64,
    /// total balance paid out
    pub cash_out: u64,
}

/// `Payout` with its addresses as bytes and its texts as characters.
pub struct PayoutView {
    pub account_type: AccountType,
    pub authority: Seq<u8>,
    pub mint: Seq<u8>,
    pub treasury_holder: Seq<u8>,
    pub cash_in: u64,
    pub cash_out: u64,
}

impl View for Payout {
    type V = PayoutView;

    open spec fn view(&self) -> PayoutView {
        PayoutView {
            account_type: self.account_type,
            authority: self.authority@,
            mint: self.mint@,
            treasury_holder: self.treasury_holder@,
            cash_in: self.cash_in,
            cash_out: self.cash_out,
        }
    }
}

/// The values of `Payout` that the format can hold: addresses of 32 bytes, texts
/// of at most `u32::MAX` bytes.
pub open spec fn payout_ok(v: PayoutView) -> bool {
    v.authority.len() == 32
    && v.mint.len() == 32
    && v.treasury_holder.len() == 32
}

/// The encoding of a `Payout`: its fields in order.
#[verifier::opaque]
pub open spec fn payout_bytes(v: PayoutView) -> Seq<u8> {
    account_type_bytes(v.account_type) + (v.authority + (v.mint + (v.treasury_holder + (u64_bytes(v.cash_in) + (u64_bytes(v.cash_out))))))
}

/// Reads the fields of a `Payout` in order.
#[verifier::opaque]
pub open spec fn read_payout(s: Seq<u8>) -> Option<(PayoutView, Seq<u8>)> {
    match read_account_type(s) {
        Some((account_type, r0)) => {
            match read_key(r0) {
                Some((authority, r1)) => {
                    match read_key(r1) {
                        Some((mint, r2)) => {
                            match read_key(r2) {
                                Some((treasury_holder, r3)) => {
                                    match read_u64(r3) {
                                        Some((cash_in, r4)) => {
                                            match read_u64(r4) {
                                                Some((cash_out, r5)) => {
                                                    Some((PayoutView { account_type, authority, mint, treasury_holder, cash_in, cash_out }, r5))
                                                },
                                                None => None,
                                            }
                                        },
                                        None => None,
                                    }
                                },
                                None => None,
                            }
                        },
                        None => None,
                    }
                },
                None => None,
            }
        },
        None => None,
    }
}

/// Reading the encoding of a `Payout` gives it back and leaves what followed.
pub proof fn lemma_read_payout(v: PayoutView, rest: Seq<u8>)
    requires
        payout_ok(v),
    ensures
        read_payout(payout_bytes(v) + rest) == Some((v, rest)),
{
    reveal(payout_bytes);
    reveal(read_payout);
    let q6 = rest;
    let q5 = u64_bytes(v.cash_out) + q6;
    let q4 = u64_bytes(v.cash_in) + q5;
    let q3 = v.treasury_holder + q4;
    let q2 = v.mint + q3;
    let q1 = v.authority + q2;
    let q0 = account_type_bytes(v.account_type) + q1;
    lemma_concat_associative(u64_bytes(v.cash_in), u64_bytes(v.cash_out), rest);
    lemma_concat_associative(v.treasury_holder, u64_bytes(v.cash_in) + (u64_bytes(v.cash_out)), rest);
    lemma_concat_associative(v.mint, v.treasury_holder + (u64_bytes(v.cash_in) + (u64_bytes(v.cash_out))), rest);
    lemma_concat_associative(v.authority, v.mint + (v.treasury_holder + (u64_bytes(v.cash_in) + (u64_bytes(v.cash_out)))), rest);
    lemma_concat_associative(account_type_bytes(v.account_type), v.authority + (v.mint + (v.treasury_holder + (u64_bytes(v.cash_in) + (u64_bytes(v.cash_out))))), rest);
    assert(payout_bytes(v) + rest == q0);
    lemma_read_account_type(v.account_type, q1);
    lemma_read_key(v.authority, q2);
    lemma_read_key(v.mint, q3);
    lemma_read_key(v.treasury_holder, q4);
    lemma_read_u64(v.cash_in, q5);
    lemma_read_u64(v.cash_out, q6);
}

/// A successful read of a `Payout` consumed exactly its encoding.
pub proof fn lemma_read_payout_inverse(s: Seq<u8>)
    ensures
        read_payout(s) matches Some((v, r)) ==> payout_ok(v) && payout_bytes(v) + r == s,
{
    reveal(payout_bytes);
    reveal(read_payout);
    if let Some((v, r)) = read_payout(s) {
        lemma_read_account_type_inverse(s);
        let s1 = read_account_type(s)->Some_0.1;
        lemma_read_key_inverse(s1);
        let s2 = read_key(s1)->Some_0.1;
        lemma_read_key_inverse(s2);
        let s3 = read_key(s2)->Some_0.1;
        lemma_read_key_inverse(s3);
        let s4 = read_key(s3)->Some_0.1;
        lemma_read_u64_inverse(s4);
        let s5 = read_u64(s4)->Some_0.1;
        lemma_read_u64_inverse(s5);
        let s6 = read_u64(s5)->Some_0.1;
        lemma_concat_associative(u64_bytes(v.cash_in), u64_bytes(v.cash_out), r);
        lemma_concat_associative(v.treasury_holder, u64_bytes(v.cash_in) + (u64_bytes(v.cash_out)), r);
        lemma_concat_associative(v.mint, v.treasury_holder + (u64_bytes(v.cash_in) + (u64_bytes(v.cash_out))), r);
        lemma_concat_associative(v.authority, v.mint + (v.treasury_holder + (u64_bytes(v.cash_in) + (u64_bytes(v.cash_out)))), r);
        lemma_concat_associative(account_type_bytes(v.account_type), v.authority + (v.mint + (v.treasury_holder + (u64_bytes(v.cash_in) + (u64_bytes(v.cash_out))))), r);
    }
}

/// The length of the encoding of a `Payout`: the lengths of its fields added up.
pub proof fn lemma_payout_bytes_len(v: PayoutView)
    ensures
        payout_bytes(v).len() == (account_type_bytes(v.account_type)).len() + (v.authority).len() + (v.mint).len() + (v.treasury_holder).len() + (u64_bytes(v.cash_in)).len() + (u64_bytes(v.cash_out)).len(),
{
    reveal(payout_bytes);
}

impl Payout {
    /// Appends the encoding of this `Payout` to `out`.
    pub fn serialize(&self, out: &mut Vec<u8>)
        requires
            payout_ok(self@),
        ensures
            final(out)@ == old(out)@ + payout_bytes(self@),
    {
        reveal(payout_bytes);
        let ghost x = out@;
        put_account_type(out, self.account_type);
        let ghost x0 = out@;
        put_key(out, &self.authority);
        let ghost x1 = out@;
        put_key(out, &self.mint);
        let ghost x2 = out@;
        put_key(out, &self.treasury_holder);
        let ghost x3 = out@;
        put_u64(out, self.cash_in);
        let ghost x4 = out@;
        put_u64(out, self.cash_out);
        let ghost x5 = out@;
        proof {
            lemma_concat_associative(x3, u64_bytes(self@.cash_in), u64_bytes(self@.cash_out));
            lemma_concat_associative(x2, self@.treasury_holder, u64_bytes(self@.cash_in) + (u64_bytes(self@.cash_out)));
            lemma_concat_associative(x1, self@.mint, self@.treasury_holder + (u64_bytes(self@.cash_in) + (u64_bytes(self@.cash_out))));
            lemma_concat_associative(x0, self@.authority, self@.mint + (self@.treasury_holder + (u64_bytes(self@.cash_in) + (u64_bytes(self@.cash_out)))));
            lemma_concat_associative(x, account_type_bytes(self@.account_type), self@.authority + (self@.mint + (self@.treasury_holder + (u64_bytes(self@.cash_in) + (u64_bytes(self@.cash_out))))));
        }
        assert(out@ == x + payout_bytes(self@));
    }

    /// Reads a `Payout` from `src` at `pos`; gives it and the position after it.
    pub fn deserialize(src: &[u8], pos: usize) -> (r: Option<(Self, usize)>)
        requires
            pos <= src@.len(),
        ensures
            read_agrees_view(src@, pos, r, read_payout(rest_at(src@, pos)), |x: Payout| x@),
    {
        reveal(read_payout);
        let (account_type, p0) = match get_account_type(src, pos) {
            Some(x) => x,
            None => return None,
        };
        let (authority, p1) = match get_key(src, p0) {
            Some(x) => x,
            None => return None,
        };
        let (mint, p2) = match get_key(src, p1) {
            Some(x) => x,
            None => return None,
        };
        let (treasury_holder, p3) = match get_key(src, p2) {
            Some(x) => x,
            None => return None,
        };
        let (cash_in, p4) = match get_u64(src, p3) {
            Some(x) => x,
            None => return None,
        };
        let (cash_out, p5) = match get_u64(src, p4) {
            Some(x) => x,
            None => return None,
        };
        Some((Payout { account_type, authority, mint, treasury_holder, cash_in, cash_out }, p5))
    }
}

/// How `Payout::unpack_from_slice` reads account data: the first byte must be the
/// `Payout` or `Uninitialized` tag and the data `MAX_PAYOUT_LEN` bytes long; then the
/// fields are read from the front, and what follows them is ignored.
pub open spec fn payout_from_slice(src: Seq<u8>) -> Result<PayoutView, ProgramError> {
    if (src[0] != 4u8 && src[0] != 0u8) || src.len() != MAX_PAYOUT_LEN {
        Err(ProgramError::InvalidAccountData)
    } else {
        match read_payout(src) {
            Some((v, _)) => Ok(v),
            None => Err(ProgramError::BorshIoError),
        }
    }
}

/// How `Payout::unpack_unchecked` reads account data of any length.
pub open spec fn payout_unpack_unchecked(src: Seq<u8>) -> Result<PayoutView, ProgramError> {
    if src.len() != MAX_PAYOUT_LEN {
        Err(ProgramError::InvalidAccountData)
    } else {
        payout_from_slice(src)
    }
}

/// How `Payout::unpack` reads account data: as `unpack_unchecked`, and the account must
/// be initialized.
pub open spec fn payout_unpack(src: Seq<u8>) -> Result<PayoutView, ProgramError> {
    match payout_unpack_unchecked(src) {
        Ok(v) => if v.account_type == AccountType::Payout {
            Ok(v)
        } else {
            Err(ProgramError::UninitializedAccount)
        },
        Err(e) => Err(e),
    }
}

/// Data written by `Payout::pack` reads back as the value that was packed.
pub proof fn lemma_payout_unpack_packed(v: PayoutView, tail: Seq<u8>)
    requires
        payout_ok(v),
        (payout_bytes(v) + tail).len() == MAX_PAYOUT_LEN,
    ensures
        v.account_type == AccountType::Payout || v.account_type == AccountType::Uninitialized
            ==> payout_unpack_unchecked(payout_bytes(v) + tail) == Ok::<PayoutView, ProgramError>(v),
        v.account_type == AccountType::Payout ==> payout_unpack(payout_bytes(v) + tail) == Ok::<PayoutView, ProgramError>(v),
        v.account_type == AccountType::Uninitialized ==> payout_unpack(payout_bytes(v) + tail)
            == Err::<PayoutView, ProgramError>(ProgramError::UninitializedAccount),
{
    lemma_read_payout(v, tail);
    reveal(payout_bytes);
    assert((payout_bytes(v) + tail)[0] == account_type_tag(v.account_type));
}

impl Payout {
    /// Writes the encoding of this `Payout` over the front of `dst`.
    pub fn pack_into_slice(&self, dst: &mut [u8])
        requires
            payout_ok(self@),
            payout_bytes(self@).len() <= old(dst)@.len(),
        ensures
            final(dst)@ == payout_bytes(self@) + old(dst)@.skip(payout_bytes(self@).len() as int),
    {
        let mut buf: Vec<u8> = Vec::new();
        self.serialize(&mut buf);
        copy_to_front(dst, &buf);
    }

    /// Reads a `Payout` from account data whose first byte is its tag or `Uninitialized`.
    pub fn unpack_from_slice(src: &[u8]) -> (r: Result<Self, ProgramError>)
        requires
            src@.len() > 0,
        ensures
            view_result(r) == payout_from_slice(src@),
    {
        if (src[0] != 4 && src[0] != 0) || src.len() != MAX_PAYOUT_LEN {
            return Err(ProgramError::InvalidAccountData);
        }
        assert(rest_at(src@, 0) =~= src@);
        match Self::deserialize(src, 0) {
            Some((v, _)) => Ok(v),
            None => Err(ProgramError::BorshIoError),
        }
    }

    /// Reads a `Payout` from account data of the packed length.
    pub fn unpack_unchecked(src: &[u8]) -> (r: Result<Self, ProgramError>)
        ensures
            view_result(r) == payout_unpack_unchecked(src@),
    {
        if src.len() != MAX_PAYOUT_LEN {
            return Err(ProgramError::InvalidAccountData);
        }
        Self::unpack_from_slice(src)
    }

    /// Reads an initialized `Payout` from account data of the packed length.
    pub fn unpack(src: &[u8]) -> (r: Result<Self, ProgramError>)
        ensures
            view_result(r) == payout_unpack(src@),
    {
        let v = Self::unpack_unchecked(src)?;
        if v.is_initialized() {
            Ok(v)
        } else {
            Err(ProgramError::UninitializedAccount)
        }
    }

    /// Writes `src` over the front of `dst`, which must be `MAX_PAYOUT_LEN` bytes long.
    pub fn pack(src: Self, dst: &mut [u8]) -> (r: Result<(), ProgramError>)
        requires
            payout_ok(src@),
            old(dst)@.len() == MAX_PAYOUT_LEN ==> payout_bytes(src@).len() <= MAX_PAYOUT_LEN,
        ensures
            old(dst)@.len() != MAX_PAYOUT_LEN ==> r == Err::<(), ProgramError>(ProgramError::InvalidAccountData)
                && final(dst)@ == old(dst)@,
            old(dst)@.len() == MAX_PAYOUT_LEN ==> r == Ok::<(), ProgramError>(())
                && final(dst)@ == payout_bytes(src@) + old(dst)@.skip(payout_bytes(src@).len() as int),
    {
        if dst.len() != MAX_PAYOUT_LEN {
            return Err(ProgramError::InvalidAccountData);
        }
        src.pack_into_slice(dst);
        Ok(())
    }

}

impl IsInitialized for Payout {
    open spec fn initialized(&self) -> bool {
        self.account_type == AccountType::Payout
    }

    fn is_initialized(&self) -> (r: bool) {
        self.account_type != AccountType::Uninitialized && self.account_type == AccountType::Payout
    }
}

/// Data that `Payout::unpack_unchecked` reads is the encoding of the value read, then
/// bytes that it ignores: packing the value again leaves the data as it was.
pub proof fn lemma_payout_unpack_inverse(src: Seq<u8>)
    ensures
        payout_unpack_unchecked(src) matches Ok(v) ==> payout_ok(v) && payout_bytes(v).len() <= src.len()
            && payout_bytes(v) + src.skip(payout_bytes(v).len() as int) == src,
{
    lemma_read_payout_inverse(src);
    if let Ok(v) = payout_unpack_unchecked(src) {
        lemma_skip_front(payout_bytes(v), read_payout(src)->Some_0.1);
    }
}

impl Payout {
    /// Seed of payout addresses.
    pub const PREFIX: &'static str = "payout";

    /// Initializes the payout account of `authority` for payments in `mint`; the
    /// balances stay as they are.
    pub fn init(&mut self, authority: Pubkey, mint: Pubkey, treasury_holder: Pubkey)
        ensures
            final(self)@ == (PayoutView {
                account_type: AccountType::Payout,
                authority: authority@,
                mint: mint@,
                treasury_holder: treasury_holder@,
                ..old(self)@
            }),
    {
        self.account_type = AccountType::Payout;
        self.authority = authority;
        self.mint = mint;
        self.treasury_holder = treasury_holder;
    }

    /// Records `amount` paid in, or fails with `MathOverflow` where the total does not fit.
    pub fn add_cash_in(&mut self, amount: u64) -> (r: Result<(), ProgramError>)
        ensures
            old(self).cash_in + amount <= u64::MAX ==> r is Ok && final(self)@ == (PayoutView {
                cash_in: (old(self).cash_in + amount) as u64,
                ..old(self)@
            }),
            old(self).cash_in + amount > u64::MAX ==> r == Err::<(), ProgramError>(
                program_error_of(NFTPassError::MathOverflow),
            ) && final(self)@ == old(self)@,
    {
        match self.cash_in.checked_add(amount) {
            Some(v) => {
                self.cash_in = v;
                Ok(())
            },
            None => Err(fail(NFTPassError::MathOverflow)),
        }
    }
}

} // verus!
