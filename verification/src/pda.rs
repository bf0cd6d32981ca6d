//! Program derived addresses of the program's accounts.

use vstd::prelude::*;
use vstd::string::StringSliceAdditionalSpecFns;

use crate::codec::{put_bytes, text_bytes};
use crate::pubkey::{
    associated_token_program_id, associated_token_program_id_bytes, token_program_id,
    token_program_id_bytes, Pubkey,
};
use crate::state::{
    Membership, Payout, Store, StoreAuthority, TradeHistory, UseAuthority, COLLECTION_MINT, PREFIX,
};

verus! {

/// The address that `Pubkey::try_find_program_address` derives from `seeds` for
/// `program_id`, with its bump seed; `None` where it finds none.
pub uninterp spec fn program_address(seeds: Seq<Seq<u8>>, program_id: Seq<u8>) -> Option<(Seq<u8>, u8)>;

/// The seeds as byte sequences.
pub open spec fn seeds_view(seeds: Seq<Vec<u8>>) -> Seq<Seq<u8>> {
    seeds.map_values(|s: Vec<u8>| s@)
}

/// An address and bump seed seen as bytes.
pub open spec fn address_view(r: Option<(Pubkey, u8)>) -> Option<(Seq<u8>, u8)> {
    match r {
        Some((k, b)) => Some((k@, b)),
        None => None,
    }
}

/// `solana_program::pubkey::Pubkey::try_find_program_address`: searches the bump seeds
/// from 255 down for one that, appended to `seeds`, hashes with `program_id` to an
/// address off the ed25519 curve.  The result is named, not stated; the source shows
/// that it is `None` where there are 16 seeds or more or a seed is longer than 32 bytes.
#[verifier::external_body]
fn try_find_program_address(seeds: &Vec<Vec<u8>>, program_id: &Pubkey) -> (r: Option<(Pubkey, u8)>)
    ensures
        address_view(r) == program_address(seeds_view(seeds@), program_id@),
        seeds@.len() >= 16 || (exists|i: int| 0 <= i < seeds@.len() && seeds@[i]@.len() > 32) ==> r
            is None,
{
    let refs: Vec<&[u8]> = seeds.iter().map(|s| s.as_slice()).collect();
    let id = solana_program::pubkey::Pubkey::new_from_array(program_id.0);
    solana_program::pubkey::Pubkey::try_find_program_address(&refs, &id).map(
        |(k, b)| (Pubkey(k.to_bytes()), b),
    )
}

/// A seed with the given bytes.
pub(crate) fn seed(bytes: &[u8]) -> (r: Vec<u8>)
    ensures
        r@ == bytes@,
{
    let mut v: Vec<u8> = Vec::new();
    put_bytes(&mut v, bytes);
    assert(v@ =~= bytes@);
    v
}

/// Derives the address of `seeds` for `program_id`.
pub(crate) fn find(seeds: Vec<Vec<u8>>, program_id: &Pubkey) -> (r: Option<(Pubkey, u8)>)
    ensures
        address_view(r) == program_address(seeds_view(seeds@), program_id@),
{
    try_find_program_address(&seeds, program_id)
}

/// The bytes of the global prefix.
pub open spec fn prefix_seed() -> Seq<u8> {
    text_bytes(PREFIX@)
}

/// The seeds that every address of the program starts with: the prefix and the program.
pub(crate) fn prefixed(program_id: &Pubkey) -> (r: Vec<Vec<u8>>)
    ensures
        seeds_view(r@) == seq![prefix_seed(), program_id@],
{
    let mut seeds: Vec<Vec<u8>> = Vec::new();
    seeds.push(seed(PREFIX.as_bytes()));
    seeds.push(seed(program_id.0.as_slice()));
    assert(seeds_view(seeds@) =~= seq![prefix_seed(), program_id@]);
    seeds
}

/// Appends a seed.
pub(crate) fn push_seed(seeds: &mut Vec<Vec<u8>>, bytes: &[u8])
    ensures
        seeds_view(final(seeds)@) == seeds_view(old(seeds)@).push(bytes@),
{
    seeds.push(seed(bytes));
    assert(seeds_view(final(seeds)@) =~= seeds_view(old(seeds)@).push(bytes@));
}

/// Generates pass collection mint
pub fn find_pass_collection_mint(program_id: &Pubkey) -> (r: Option<(Pubkey, u8)>)
    ensures
        address_view(r) == program_address(seq![prefix_seed(), program_id@, text_bytes(COLLECTION_MINT@)], program_id@),
{
    let mut seeds: Vec<Vec<u8>> = Vec::new();
    seeds.push(seed(PREFIX.as_bytes()));
    seeds.push(seed(program_id.0.as_slice()));
    seeds.push(seed(COLLECTION_MINT.as_bytes()));
    assert(seeds_view(seeds@) =~= seq![prefix_seed(), program_id@, text_bytes(COLLECTION_MINT@)]);
    find(seeds, program_id)
}

/// Generates program authority
pub fn find_program_authority(program_id: &Pubkey) -> (r: Option<(Pubkey, u8)>)
    ensures
        address_view(r) == program_address(seq![prefix_seed(), program_id@], program_id@),
{
    let mut seeds = prefixed(program_id);
    assert(seeds_view(seeds@) =~= seq![prefix_seed(), program_id@]);
    find(seeds, program_id)
}

/// Generates pass store address
pub fn find_pass_store_program_address(program_id: &Pubkey, authority: &Pubkey) -> (r: Option<(Pubkey, u8)>)
    ensures
        address_view(r) == program_address(seq![prefix_seed(), program_id@, authority@, text_bytes(Store::PREFIX@)], program_id@),
{
    let mut seeds = prefixed(program_id);
    push_seed(&mut seeds, authority.0.as_slice());
    push_seed(&mut seeds, Store::PREFIX.as_bytes());
    assert(seeds_view(seeds@) =~= seq![prefix_seed(), program_id@, authority@, text_bytes(Store::PREFIX@)]);
    find(seeds, program_id)
}

/// Generates payout account address
pub fn find_payout_program_address(program_id: &Pubkey, authority: &Pubkey, mint: &Pubkey) -> (r: Option<(Pubkey, u8)>)
    ensures
        address_view(r) == program_address(seq![prefix_seed(), program_id@, authority@, mint@, text_bytes(Payout::PREFIX@)], program_id@),
{
    let mut seeds = prefixed(program_id);
    push_seed(&mut seeds, authority.0.as_slice());
    push_seed(&mut seeds, mint.0.as_slice());
    push_seed(&mut seeds, Payout::PREFIX.as_bytes());
    assert(seeds_view(seeds@) =~= seq![prefix_seed(), program_id@, authority@, mint@, text_bytes(Payout::PREFIX@)]);
    find(seeds, program_id)
}

/// Generates trade history account address
pub fn find_trade_history_program_address(program_id: &Pubkey, passbook: &Pubkey, wallet: &Pubkey) -> (r: Option<(Pubkey, u8)>)
    ensures
        address_view(r) == program_address(seq![prefix_seed(), program_id@, passbook@, wallet@, text_bytes(TradeHistory::PREFIX@)], program_id@),
{
    let mut seeds = prefixed(program_id);
    push_seed(&mut seeds, passbook.0.as_slice());
    push_seed(&mut seeds, wallet.0.as_slice());
    push_seed(&mut seeds, TradeHistory::PREFIX.as_bytes());
    assert(seeds_view(seeds@) =~= seq![prefix_seed(), program_id@, passbook@, wallet@, text_bytes(TradeHistory::PREFIX@)]);
    find(seeds, program_id)
}

/// Generates pass book address
pub fn find_pass_book_program_address(program_id: &Pubkey, mint: &Pubkey) -> (r: Option<(Pubkey, u8)>)
    ensures
        address_view(r) == program_address(seq![prefix_seed(), program_id@, mint@], program_id@),
{
    let mut seeds = prefixed(program_id);
    push_seed(&mut seeds, mint.0.as_slice());
    assert(seeds_view(seeds@) =~= seq![prefix_seed(), program_id@, mint@]);
    find(seeds, program_id)
}

/// Generate membership pda
pub fn find_membership_program_address(program_id: &Pubkey, store: &Pubkey, wallet: &Pubkey) -> (r: Option<(Pubkey, u8)>)
    ensures
        address_view(r) == program_address(seq![prefix_seed(), program_id@, store@, wallet@, text_bytes(Membership::PREFIX@)], program_id@),
{
    let mut seeds = prefixed(program_id);
    push_seed(&mut seeds, store.0.as_slice());
    push_seed(&mut seeds, wallet.0.as_slice());
    push_seed(&mut seeds, Membership::PREFIX.as_bytes());
    assert(seeds_view(seeds@) =~= seq![prefix_seed(), program_id@, store@, wallet@, text_bytes(Membership::PREFIX@)]);
    find(seeds, program_id)
}

/// Generate use authority pda
pub fn find_use_authority_program_address(program_id: &Pubkey, membership: &Pubkey, user: &Pubkey) -> (r: Option<(Pubkey, u8)>)
    ensures
        address_view(r) == program_address(seq![prefix_seed(), program_id@, membership@, user@, text_bytes(UseAuthority::PREFIX@)], program_id@),
{
    let mut seeds = prefixed(program_id);
    push_seed(&mut seeds, membership.0.as_slice());
    push_seed(&mut seeds, user.0.as_slice());
    push_seed(&mut seeds, UseAuthority::PREFIX.as_bytes());
    assert(seeds_view(seeds@) =~= seq![prefix_seed(), program_id@, membership@, user@, text_bytes(UseAuthority::PREFIX@)]);
    find(seeds, program_id)
}

/// Generate store authority pda
pub fn find_store_authority_program_address(program_id: &Pubkey, store: &Pubkey, user: &Pubkey) -> (r: Option<(Pubkey, u8)>)
    ensures
        address_view(r) == program_address(seq![prefix_seed(), program_id@, store@, user@, text_bytes(StoreAuthority::PREFIX@)], program_id@),
{
    let mut seeds = prefixed(program_id);
    push_seed(&mut seeds, store.0.as_slice());
    push_seed(&mut seeds, user.0.as_slice());
    push_seed(&mut seeds, StoreAuthority::PREFIX.as_bytes());
    assert(seeds_view(seeds@) =~= seq![prefix_seed(), program_id@, store@, user@, text_bytes(StoreAuthority::PREFIX@)]);
    find(seeds, program_id)
}

/// The associated token account of `wallet` for `mint`: the address derived from the
/// wallet, the token program and the mint for the associated token account program.
pub fn associated_token_address(wallet: &Pubkey, mint: &Pubkey) -> (r: Option<Pubkey>)
    ensures
        r matches Some(k) ==> program_address(
            seq![wallet@, token_program_id_bytes(), mint@],
            associated_token_program_id_bytes(),
        ) matches Some((a, _)) && a == k@,
        r is None ==> program_address(
            seq![wallet@, token_program_id_bytes(), mint@],
            associated_token_program_id_bytes(),
        ) is None,
{
    let mut seeds: Vec<Vec<u8>> = Vec::new();
    push_seed(&mut seeds, wallet.0.as_slice());
    push_seed(&mut seeds, token_program_id().0.as_slice());
    push_seed(&mut seeds, mint.0.as_slice());
    assert(seeds_view(seeds@) =~= seq![wallet@, token_program_id_bytes(), mint@]);
    match find(seeds, &associated_token_program_id()) {
        Some((k, _)) => Some(k),
        None => None,
    }
}

} // verus!
