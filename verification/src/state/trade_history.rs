//! The purchase record of one wallet in one pass book.

use vstd::prelude::*;

use crate::codec::{
    copy_to_front, get_key, get_u64, lemma_read_key, lemma_read_u64, lemma_read_key_inverse,
    lemma_read_u64_inverse, lemma_skip_front, put_key, put_u64, read_agrees_view, read_key,
    read_u64, rest_at, u64_bytes,
};
use vstd::seq_lib::lemma_concat_associative;
use crate::error::{program_error_of, view_result, NFTPassError, ProgramError};
use crate::pubkey::Pubkey;
use crate::utils::error_increment;
use crate::state::{
    account_type_bytes, account_type_tag, get_account_type, lemma_read_account_type,
    lemma_read_account_type_inverse, put_account_type, read_account_type, AccountType,
    IsInitialized,
};

verus! {

/// Length of the data of a trade history account.
pub const MAX_TRADE_HISTORY_LEN: usize = 1 + 32 + 8 + 32;

/// Trade History
#[derive(Clone, Debug, PartialEq, Default)]
pub struct TradeHistory {
    /// Account type - TradeHistory
    pub account_type: AccountType,
    /// Passbook
    pub passbook: Pubkey,
    /// The amount of passes purchased by wallet
    pub already_bought: u64,
    /// The user wallet with this history
    pub wallet: Pubkey,
}

/// `TradeHistory` with its addresses as bytes and its texts as characters.
pub struct TradeHistoryView {
    pub account_type: AccountType,
    pub passbook: Seq<u8>,
    pub already_bought: u64,
    pub wallet: Seq<u8>,
}

impl View for TradeHistory {
    type V = TradeHistoryView;

    open spec fn view(&self) -> TradeHistoryView {
        TradeHistoryView {
            account_type: self.account_type,
            passbook: self.passbook@,
            already_bought: self.already_bought,
            wallet: self.wallet@,
        }
    }
}

/// The values of `TradeHistory` that the format can hold: addresses of 32 bytes, texts
/// of at most `u32::MAX` bytes.
pub open spec fn trade_history_ok(v: TradeHistoryView) -> bool {
    v.passbook.len() == 32
    && v.wallet.len() == 32
}

/// The encoding of a `TradeHistory`: its fields in order.
#[verifier::opaque]
pub open spec fn trade_history_bytes(v: TradeHistoryView) -> Seq<u8> {
    account_type_bytes(v.account_type) + (v.passbook + (u64_bytes(v.already_bought) + (v.wallet)))
}

/// Reads the fields of a `TradeHistory` in order.
#[verifier::opaque]
pub open spec fn read_trade_history(s: Seq<u8>) -> Option<(TradeHistoryView, Seq<u8>)> {
    match read_account_type(s) {
        Some((account_type, r0)) => {
            match read_key(r0) {
                Some((passbook, r1)) => {
                    match read_u64(r1) {
                        Some((already_bought, r2)) => {
                            match read_key(r2) {
                                Some((wallet, r3)) => {
                                    Some((TradeHistoryView { account_type, passbook, already_bought, wallet }, r3))
                                },
                                None => None,
                            }
                        },
                        None => None,
                    }
                },
                None => None,
            }
        },
        None => None,
    }
}

/// Reading the encoding of a `TradeHistory` gives it back and leaves what followed.
pub proof fn lemma_read_trade_history(v: TradeHistoryView, rest: Seq<u8>)
    requires
        trade_history_ok(v),
    ensures
        read_trade_history(trade_history_bytes(v) + rest) == Some((v, rest)),
{
    reveal(trade_history_bytes);
    reveal(read_trade_history);
    let q4 = rest;
    let q3 = v.wallet + q4;
    let q2 = u64_bytes(v.already_bought) + q3;
    let q1 = v.passbook + q2;
    let q0 = account_type_bytes(v.account_type) + q1;
    lemma_concat_associative(u64_bytes(v.already_bought), v.wallet, rest);
    lemma_concat_associative(v.passbook, u64_bytes(v.already_bought) + (v.wallet), rest);
    lemma_concat_associative(account_type_bytes(v.account_type), v.passbook + (u64_bytes(v.already_bought) + (v.wallet)), rest);
    assert(trade_history_bytes(v) + rest == q0);
    lemma_read_account_type(v.account_type, q1);
    lemma_read_key(v.passbook, q2);
    lemma_read_u64(v.already_bought, q3);
    lemma_read_key(v.wallet, q4);
}

/// A successful read of a `TradeHistory` consumed exactly its encoding.
pub proof fn lemma_read_trade_history_inverse(s: Seq<u8>)
    ensures
        read_trade_history(s) matches Some((v, r)) ==> trade_history_ok(v) && trade_history_bytes(v) + r == s,
{
    reveal(trade_history_bytes);
    reveal(read_trade_history);
    if let Some((v, r)) = read_trade_history(s) {
        lemma_read_account_type_inverse(s);
        let s1 = read_account_type(s)->Some_0.1;
        lemma_read_key_inverse(s1);
        let s2 = read_key(s1)->Some_0.1;
        lemma_read_u64_inverse(s2);
        let s3 = read_u64(s2)->Some_0.1;
        lemma_read_key_inverse(s3);
        let s4 = read_key(s3)->Some_0.1;
        lemma_concat_associative(u64_bytes(v.already_bought), v.wallet, r);
        lemma_concat_associative(v.passbook, u64_bytes(v.already_bought) + (v.wallet), r);
        lemma_concat_associative(account_type_bytes(v.account_type), v.passbook + (u64_bytes(v.already_bought) + (v.wallet)), r);
    }
}

/// The length of the encoding of a `TradeHistory`: the lengths of its fields added up.
pub proof fn lemma_trade_history_bytes_len(v: TradeHistoryView)
    ensures
        trade_history_bytes(v).len() == (account_type_bytes(v.account_type)).len() + (v.passbook).len() + (u64_bytes(v.already_bought)).len() + (v.wallet).len(),
{
    reveal(trade_history_bytes);
}

impl TradeHistory {
    /// Appends the encoding of this `TradeHistory` to `out`.
    pub fn serialize(&self, out: &mut Vec<u8>)
        requires
            trade_history_ok(self@),
        ensures
            final(out)@ == old(out)@ + trade_history_bytes(self@),
    {
        reveal(trade_history_bytes);
        let ghost x = out@;
        put_account_type(out, self.account_type);
        let ghost x0 = out@;
        put_key(out, &self.passbook);
        let ghost x1 = out@;
        put_u64(out, self.already_bought);
        let ghost x2 = out@;
        put_key(out, &self.wallet);
        let ghost x3 = out@;
        proof {
            lemma_concat_associative(x1, u64_bytes(self@.already_bought), self@.wallet);
            lemma_concat_associative(x0, self@.passbook, u64_bytes(self@.already_bought) + (self@.wallet));
            lemma_concat_associative(x, account_type_bytes(self@.account_type), self@.passbook + (u64_bytes(self@.already_bought) + (self@.wallet)));
        }
        assert(out@ == x + trade_history_bytes(self@));
    }

    /// Reads a `TradeHistory` from `src` at `pos`; gives it and the position after it.
    pub fn deserialize(src: &[u8], pos: usize) -> (r: Option<(Self, usize)>)
        requires
            pos <= src@.len(),
        ensures
            read_agrees_view(src@, pos, r, read_trade_history(rest_at(src@, pos)), |x: TradeHistory| x@),
    {
        reveal(read_trade_history);
        let (account_type, p0) = match get_account_type(src, pos) {
            Some(x) => x,
            None => return None,
        };
        let (passbook, p1) = match get_key(src, p0) {
            Some(x) => x,
            None => return None,
        };
        let (already_bought, p2) = match get_u64(src, p1) {
            Some(x) => x,
            None => return None,
        };
        let (wallet, p3) = match get_key(src, p2) {
            Some(x) => x,
            None => return None,
        };
        Some((TradeHistory { account_type, passbook, already_bought, wallet }, p3))
    }
}

/// How `TradeHistory::unpack_from_slice` reads account data: the first byte must be the
/// `TradeHistory` or `Uninitialized` tag and the data `MAX_TRADE_HISTORY_LEN` bytes long; then the
/// fields are read from the front, and what follows them is ignored.
pub open spec fn trade_history_from_slice(src: Seq<u8>) -> Result<TradeHistoryView, ProgramError> {
    if (src[0] != 5u8 && src[0] != 0u8) || src.len() != MAX_TRADE_HISTORY_LEN {
        Err(ProgramError::InvalidAccountData)
    } else {
        match read_trade_history(src) {
            Some((v, _)) => Ok(v),
            None => Err(ProgramError::BorshIoError),
        }
    }
}

/// How `TradeHistory::unpack_unchecked` reads account data of any length.
pub open spec fn trade_history_unpack_unchecked(src: Seq<u8>) -> Result<TradeHistoryView, ProgramError> {
    if src.len() != MAX_TRADE_HISTORY_LEN {
        Err(ProgramError::InvalidAccountData)
    } else {
        trade_history_from_slice(src)
    }
}

/// How `TradeHistory::unpack` reads account data: as `unpack_unchecked`, and the account must
/// be initialized.
pub open spec fn trade_history_unpack(src: Seq<u8>) -> Result<TradeHistoryView, ProgramError> {
    match trade_history_unpack_unchecked(src) {
        Ok(v) => if v.account_type == AccountType::TradeHistory {
            Ok(v)
        } else {
            Err(ProgramError::UninitializedAccount)
        },
        Err(e) => Err(e),
    }
}

/// Data written by `TradeHistory::pack` reads back as the value that was packed.
pub proof fn lemma_trade_history_unpack_packed(v: TradeHistoryView, tail: Seq<u8>)
    requires
        trade_history_ok(v),
        (trade_history_bytes(v) + tail).len() == MAX_TRADE_HISTORY_LEN,
    ensures
        v.account_type == AccountType::TradeHistory || v.account_type == AccountType::Uninitialized
            ==> trade_history_unpack_unchecked(trade_history_bytes(v) + tail) == Ok::<TradeHistoryView, ProgramError>(v),
        v.account_type == AccountType::TradeHistory ==> trade_history_unpack(trade_history_bytes(v) + tail) == Ok::<TradeHistoryView, ProgramError>(v),
        v.account_type == AccountType::Uninitialized ==> trade_history_unpack(trade_history_bytes(v) + tail)
            == Err::<TradeHistoryView, ProgramError>(ProgramError::UninitializedAccount),
{
    lemma_read_trade_history(v, tail);
    reveal(trade_history_bytes);
    assert((trade_history_bytes(v) + tail)[0] == account_type_tag(v.account_type));
}

impl TradeHistory {
    /// Writes the encoding of this `TradeHistory` over the front of `dst`.
    pub fn pack_into_slice(&self, dst: &mut [u8])
        requires
            trade_history_ok(self@),
            trade_history_bytes(self@).len() <= old(dst)@.len(),
        ensures
            final(dst)@ == trade_history_bytes(self@) + old(dst)@.skip(trade_history_bytes(self@).len() as int),
    {
        let mut buf: Vec<u8> = Vec::new();
        self.serialize(&mut buf);
        copy_to_front(dst, &buf);
    }

    /// Reads a `TradeHistory` from account data whose first byte is its tag or `Uninitialized`.
    pub fn unpack_from_slice(src: &[u8]) -> (r: Result<Self, ProgramError>)
        requires
            src@.len() > 0,
        ensures
            view_result(r) == trade_history_from_slice(src@),
    {
        if (src[0] != 5 && src[0] != 0) || src.len() != MAX_TRADE_HISTORY_LEN {
            return Err(ProgramError::InvalidAccountData);
        }
        assert(rest_at(src@, 0) =~= src@);
        match Self::deserialize(src, 0) {
            Some((v, _)) => Ok(v),
            None => Err(ProgramError::BorshIoError),
        }
    }

    /// Reads a `TradeHistory` from account data of the packed length.
    pub fn unpack_unchecked(src: &[u8]) -> (r: Result<Self, ProgramError>)
        ensures
            view_result(r) == trade_history_unpack_unchecked(src@),
    {
        if src.len() != MAX_TRADE_HISTORY_LEN {
            return Err(ProgramError::InvalidAccountData);
        }
        Self::unpack_from_slice(src)
    }

    /// Reads an initialized `TradeHistory` from account data of the packed length.
    pub fn unpack(src: &[u8]) -> (r: Result<Self, ProgramError>)
        ensures
            view_result(r) == trade_history_unpack(src@),
    {
        let v = Self::unpack_unchecked(src)?;
        if v.is_initialized() {
            Ok(v)
        } else {
            Err(ProgramError::UninitializedAccount)
        }
    }

    /// Writes `src` over the front of `dst`, which must be `MAX_TRADE_HISTORY_LEN` bytes long.
    pub fn pack(src: Self, dst: &mut [u8]) -> (r: Result<(), ProgramError>)
        requires
            trade_history_ok(src@),
            old(dst)@.len() == MAX_TRADE_HISTORY_LEN ==> trade_history_bytes(src@).len() <= MAX_TRADE_HISTORY_LEN,
        ensures
            old(dst)@.len() != MAX_TRADE_HISTORY_LEN ==> r == Err::<(), ProgramError>(ProgramError::InvalidAccountData)
                && final(dst)@ == old(dst)@,
            old(dst)@.len() == MAX_TRADE_HISTORY_LEN ==> r == Ok::<(), ProgramError>(())
                && final(dst)@ == trade_history_bytes(src@) + old(dst)@.skip(trade_history_bytes(src@).len() as int),
    {
        if dst.len() != MAX_TRADE_HISTORY_LEN {
            return Err(ProgramError::InvalidAccountData);
        }
        src.pack_into_slice(dst);
        Ok(())
    }

}

impl IsInitialized for TradeHistory {
    open spec fn initialized(&self) -> bool {
        self.account_type == AccountType::TradeHistory
    }

    fn is_initialized(&self) -> (r: bool) {
        self.account_type != AccountType::Uninitialized && self.account_type == AccountType::TradeHistory
    }
}

/// Data that `TradeHistory::unpack_unchecked` reads is the encoding of the value read, then
/// bytes that it ignores: packing the value again leaves the data as it was.
pub proof fn lemma_trade_history_unpack_inverse(src: Seq<u8>)
    ensures
        trade_history_unpack_unchecked(src) matches Ok(v) ==> trade_history_ok(v) && trade_history_bytes(v).len() <= src.len()
            && trade_history_bytes(v) + src.skip(trade_history_bytes(v).len() as int) == src,
{
    lemma_read_trade_history_inverse(src);
    if let Ok(v) = trade_history_unpack_unchecked(src) {
        lemma_skip_front(trade_history_bytes(v), read_trade_history(src)->Some_0.1);
    }
}

impl TradeHistory {
    /// Seed of trade history addresses.
    pub const PREFIX: &'static str = "history";

    /// Initializes the purchase record of `wallet` in `passbook`.
    pub fn init(&mut self, passbook: Pubkey, wallet: Pubkey)
        ensures
            final(self)@ == (TradeHistoryView {
                account_type: AccountType::TradeHistory,
                passbook: passbook@,
                already_bought: 0,
                wallet: wallet@,
            }),
    {
        self.account_type = AccountType::TradeHistory;
        self.passbook = passbook;
        self.already_bought = 0;
        self.wallet = wallet;
    }

    /// Counts one more purchase.
    pub fn increment_already_bought(&mut self) -> (r: Result<(), ProgramError>)
        ensures
            old(self).already_bought < u64::MAX ==> r is Ok && final(self)@ == (TradeHistoryView {
                already_bought: (old(self).already_bought + 1) as u64,
                ..old(self)@
            }),
            old(self).already_bought == u64::MAX ==> r == Err::<(), ProgramError>(
                program_error_of(NFTPassError::Overflow),
            ) && final(self)@ == old(self)@,
    {
        self.already_bought = error_increment(self.already_bought)?;
        Ok(())
    }
}

} // verus!
