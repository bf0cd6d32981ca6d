//! Accounts of the program: their contents, their byte format and their state changes.

pub mod membership;
pub mod pass_book;
pub mod payout;
pub mod store;
pub mod trade_history;
pub mod uses;

pub use membership::{Membership, MembershipState};
pub use pass_book::{InitPassBook, PassBook, PassBookState};
pub use payout::{Payout, PayoutInfoArgs};
pub use store::{Store, StoreAuthority};
pub use trade_history::TradeHistory;
pub use uses::{UseAuthority, Uses};

use vstd::prelude::*;

use crate::codec::{
    get_u8, lemma_read_u8, lemma_read_u8_inverse, put_u8, read_agrees, read_u8, rest_at,
};

verus! {

/// Accounts that know whether they hold their kind of data.
pub trait IsInitialized {
    /// Whether the account holds its kind of data.
    spec fn initialized(&self) -> bool;

    /// Whether the account holds its kind of data.
    fn is_initialized(&self) -> (r: bool)
        ensures
            r == self.initialized(),
    ;
}

/// Global prefix for program addresses
pub const PREFIX: &'static str = "passbook";

pub const COLLECTION_MINT: &'static str = "mint";

pub const STORE: &'static str = "store";

pub const PASS: &'static str = "pass";

/// Max len of pass URI
pub const MAX_URI_LENGTH: usize = 200;

pub const MAX_NAME_LENGTH: usize = 32;

/// Max len of pass description string
pub const MAX_DESCRIPTION_LEN: usize = 500;

/// Max len of the blur hash of a pass image
pub const MAX_LENGTH_IMAGE_HASH: usize = 100;

/// Length of the data of a pass account, which membership accounts share
pub const MAX_PASS_LEN: usize = 1067;

pub const USES_LENGTH: usize = 24;

pub const USE_AUTHORITY_LENGTH: usize = 50;

pub const STORE_AUTHORITY_LENGTH: usize = 50;

/// Enum representing the account type managed by the program
#[derive(Clone, Copy, Debug, PartialEq, Eq, Structural)]
pub enum AccountType {
    /// If the account has not been initialized, the enum will be 0
    Uninitialized,
    /// Pass account
    Pass,
    /// Pass store account
    Store,
    /// Pass collection account
    PassBook,
    /// Payout
    Payout,
    /// TradeHistory
    TradeHistory,
    /// Membership
    Membership,
    /// Use authority record
    UseAuthority,
    /// Store authority record
    StoreAuthority,
}

/// The one-byte tag of each `AccountType`, its place in the declaration.
pub open spec fn account_type_tag(t: AccountType) -> u8 {
    match t {
        AccountType::Uninitialized => 0u8,
        AccountType::Pass => 1u8,
        AccountType::Store => 2u8,
        AccountType::PassBook => 3u8,
        AccountType::Payout => 4u8,
        AccountType::TradeHistory => 5u8,
        AccountType::Membership => 6u8,
        AccountType::UseAuthority => 7u8,
        AccountType::StoreAuthority => 8u8,
    }
}

pub open spec fn account_type_bytes(t: AccountType) -> Seq<u8> {
    seq![account_type_tag(t)]
}

pub open spec fn account_type_of_tag(b: u8) -> Option<AccountType> {
    if b == 0u8 {
        Some(AccountType::Uninitialized)
    } else if b == 1u8 {
        Some(AccountType::Pass)
    } else if b == 2u8 {
        Some(AccountType::Store)
    } else if b == 3u8 {
        Some(AccountType::PassBook)
    } else if b == 4u8 {
        Some(AccountType::Payout)
    } else if b == 5u8 {
        Some(AccountType::TradeHistory)
    } else if b == 6u8 {
        Some(AccountType::Membership)
    } else if b == 7u8 {
        Some(AccountType::UseAuthority)
    } else if b == 8u8 {
        Some(AccountType::StoreAuthority)
    } else {
        None
    }
}

pub open spec fn read_account_type(s: Seq<u8>) -> Option<(AccountType, Seq<u8>)> {
    match read_u8(s) {
        Some((b, r)) => match account_type_of_tag(b) {
            Some(t) => Some((t, r)),
            None => None,
        },
        None => None,
    }
}

pub proof fn lemma_read_account_type(t: AccountType, rest: Seq<u8>)
    ensures
        read_account_type(account_type_bytes(t) + rest) == Some((t, rest)),
{
    lemma_read_u8(account_type_tag(t), rest);
}

pub fn put_account_type(out: &mut Vec<u8>, t: AccountType)
    ensures
        final(out)@ == old(out)@ + account_type_bytes(t),
{
    let b: u8 = match t {
        AccountType::Uninitialized => 0,
        AccountType::Pass => 1,
        AccountType::Store => 2,
        AccountType::PassBook => 3,
        AccountType::Payout => 4,
        AccountType::TradeHistory => 5,
        AccountType::Membership => 6,
        AccountType::UseAuthority => 7,
        AccountType::StoreAuthority => 8,
    };
    put_u8(out, b);
}

pub fn get_account_type(src: &[u8], pos: usize) -> (r: Option<(AccountType, usize)>)
    requires
        pos <= src@.len(),
    ensures
        read_agrees(src@, pos, r, read_account_type(rest_at(src@, pos))),
{
    match get_u8(src, pos) {
        Some((b, p)) => {
            if b == 0 {
                Some((AccountType::Uninitialized, p))
            } else if b == 1 {
                Some((AccountType::Pass, p))
            } else if b == 2 {
                Some((AccountType::Store, p))
            } else if b == 3 {
                Some((AccountType::PassBook, p))
            } else if b == 4 {
                Some((AccountType::Payout, p))
            } else if b == 5 {
                Some((AccountType::TradeHistory, p))
            } else if b == 6 {
                Some((AccountType::Membership, p))
            } else if b == 7 {
                Some((AccountType::UseAuthority, p))
            } else if b == 8 {
                Some((AccountType::StoreAuthority, p))
            } else {
                None
            }
        },
        None => None,
    }
}

pub proof fn lemma_read_account_type_inverse(s: Seq<u8>)
    ensures
        read_account_type(s) matches Some((t, r)) ==> account_type_bytes(t) + r == s,
{
    lemma_read_u8_inverse(s);
}

impl Default for AccountType {
    fn default() -> (r: Self)
        ensures
            r == AccountType::Uninitialized,
    {
        AccountType::Uninitialized
    }
}

} // verus!
