//! The master pass program: master passes of a store, the passes printed from them,
//! and the instruction that creates a master pass.

pub mod instruction;
pub mod master_pass;
pub mod pass;
pub mod pass_type;
pub mod processor;
pub mod store;

pub use master_pass::{InitMasterPassParams, MasterPass, MasterPassState, Period};
pub use pass::{InitPassParams, Pass, PassState};
pub use pass_type::{check_pass_type, PassType};
pub use store::Store;

use vstd::prelude::*;

use crate::codec::{
    get_u8, lemma_read_u8, lemma_read_u8_inverse, put_u8, read_agrees, read_u8, rest_at,
    text_bytes,
};
use crate::pda::{address_view, find, program_address, push_seed, seed, seeds_view};
use crate::pubkey::Pubkey;

verus! {

/// Global prefix for program addresses
pub const PREFIX: &'static str = "pass";

pub const COLLECTION_MINT: &'static str = "mint";

pub const STORE: &'static str = "store";

/// Enum representing the account type managed by the master pass program
#[derive(Clone, Copy, Debug, PartialEq, Eq, Structural)]
pub enum AccountType {
    /// If the account has not been initialized, the enum will be 0
    Uninitialized,
    /// Pass account
    Pass,
    /// Pass store account
    Store,
    /// Pass collection account
    MasterPass,
}

/// The one-byte tag of each `AccountType`, its place in the declaration.
pub open spec fn account_type_tag(t: AccountType) -> u8 {
    match t {
        AccountType::Uninitialized => 0u8,
        AccountType::Pass => 1u8,
        AccountType::Store => 2u8,
        AccountType::MasterPass => 3u8,
    }
}

pub open spec fn account_type_bytes(t: AccountType) -> Seq<u8> {
    seq![account_type_tag(t)]
}

pub open spec fn account_type_of_tag(b: u8) -> Option<AccountType> {
    if b == 0u8 {
        Some(AccountType::Uninitialized)
    } else if b == 1u8 {
        Some(AccountType::Pass)
    } else if b == 2u8 {
        Some(AccountType::Store)
    } else if b == 3u8 {
        Some(AccountType::MasterPass)
    } else {
        None
    }
}

pub open spec fn read_account_type(s: Seq<u8>) -> Option<(AccountType, Seq<u8>)> {
    match read_u8(s) {
        Some((b, r)) => match account_type_of_tag(b) {
            Some(t) => Some((t, r)),
            None => None,
        },
        None => None,
    }
}

pub proof fn lemma_read_account_type(t: AccountType, rest: Seq<u8>)
    ensures
        read_account_type(account_type_bytes(t) + rest) == Some((t, rest)),
{
    lemma_read_u8(account_type_tag(t), rest);
}

pub fn put_account_type(out: &mut Vec<u8>, t: AccountType)
    ensures
        final(out)@ == old(out)@ + account_type_bytes(t),
{
    let b: u8 = match t {
        AccountType::Uninitialized => 0,
        AccountType::Pass => 1,
        AccountType::Store => 2,
        AccountType::MasterPass => 3,
    };
    put_u8(out, b);
}

pub fn get_account_type(src: &[u8], pos: usize) -> (r: Option<(AccountType, usize)>)
    requires
        pos <= src@.len(),
    ensures
        read_agrees(src@, pos, r, read_account_type(rest_at(src@, pos))),
{
    match get_u8(src, pos) {
        Some((b, p)) => {
            if b == 0 {
                Some((AccountType::Uninitialized, p))
            } else if b == 1 {
                Some((AccountType::Pass, p))
            } else if b == 2 {
                Some((AccountType::Store, p))
            } else if b == 3 {
                Some((AccountType::MasterPass, p))
            } else {
                None
            }
        },
        None => None,
    }
}

pub proof fn lemma_read_account_type_inverse(s: Seq<u8>)
    ensures
        read_account_type(s) matches Some((t, r)) ==> account_type_bytes(t) + r == s,
{
    lemma_read_u8_inverse(s);
}

impl Default for AccountType {
    fn default() -> (r: Self)
        ensures
            r == AccountType::Uninitialized,
    {
        AccountType::Uninitialized
    }
}

/// The address of the master pass program: the bytes of `passK9sjcBkUzWu35gf2x4EmpcrkZB9NXgHWtgAzxhB`.
pub open spec fn master_program_id_bytes() -> Seq<u8> {
    seq![12u8, 48u8, 154u8, 87u8, 186u8, 34u8, 131u8, 131u8, 252u8, 162u8, 242u8, 231u8, 124u8, 97u8, 166u8, 182u8, 83u8, 100u8, 15u8, 184u8, 47u8, 244u8, 254u8, 149u8, 0u8, 122u8, 22u8, 42u8, 187u8, 72u8, 36u8, 238u8]
}

/// Returns the program ID
pub fn id() -> (r: Pubkey)
    ensures
        r@ == master_program_id_bytes(),
{
    let r = Pubkey([12, 48, 154, 87, 186, 34, 131, 131, 252, 162, 242, 231, 124, 97, 166, 182, 83, 100, 15, 184, 47, 244, 254, 149, 0, 122, 22, 42, 187, 72, 36, 238]);
    assert(r@ =~= master_program_id_bytes());
    r
}

/// The bytes of the prefix of the master pass program's addresses.
pub open spec fn master_prefix_seed() -> Seq<u8> {
    text_bytes(PREFIX@)
}

/// The seeds that every address of the master pass program starts with.
pub(crate) fn master_prefixed(program_id: &Pubkey) -> (r: Vec<Vec<u8>>)
    ensures
        seeds_view(r@) == seq![master_prefix_seed(), program_id@],
{
    let mut seeds: Vec<Vec<u8>> = Vec::new();
    seeds.push(seed(PREFIX.as_bytes()));
    seeds.push(seed(program_id.0.as_slice()));
    assert(seeds_view(seeds@) =~= seq![master_prefix_seed(), program_id@]);
    seeds
}

/// Generates pass collection mint
pub fn find_pass_collection_mint(program_id: &Pubkey) -> (r: Option<(Pubkey, u8)>)
    ensures
        address_view(r) == program_address(seq![master_prefix_seed(), program_id@, text_bytes(COLLECTION_MINT@)], program_id@),
{
    let mut seeds = master_prefixed(program_id);
    push_seed(&mut seeds, COLLECTION_MINT.as_bytes());
    assert(seeds_view(seeds@) =~= seq![master_prefix_seed(), program_id@, text_bytes(COLLECTION_MINT@)]);
    find(seeds, program_id)
}

/// Generates program authority
pub fn find_program_authority(program_id: &Pubkey) -> (r: Option<(Pubkey, u8)>)
    ensures
        address_view(r) == program_address(seq![master_prefix_seed(), program_id@], program_id@),
{
    let seeds = master_prefixed(program_id);
    find(seeds, program_id)
}

/// Generates pass store address
pub fn find_pass_store_program_address(program_id: &Pubkey, authority: &Pubkey) -> (r: Option<(Pubkey, u8)>)
    ensures
        address_view(r) == program_address(seq![master_prefix_seed(), program_id@, authority@, text_bytes(Store::PREFIX@)], program_id@),
{
    let mut seeds = master_prefixed(program_id);
    push_seed(&mut seeds, authority.0.as_slice());
    push_seed(&mut seeds, Store::PREFIX.as_bytes());
    assert(seeds_view(seeds@) =~= seq![master_prefix_seed(), program_id@, authority@, text_bytes(Store::PREFIX@)]);
    find(seeds, program_id)
}

/// Generates master pass address
pub fn find_master_pass_program_address(program_id: &Pubkey, mint: &Pubkey) -> (r: Option<(Pubkey, u8)>)
    ensures
        address_view(r) == program_address(seq![master_prefix_seed(), program_id@, mint@], program_id@),
{
    let mut seeds = master_prefixed(program_id);
    push_seed(&mut seeds, mint.0.as_slice());
    assert(seeds_view(seeds@) =~= seq![master_prefix_seed(), program_id@, mint@]);
    find(seeds, program_id)
}

} // verus!
