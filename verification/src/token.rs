//! What the program reads of accounts that other programs own: token accounts of the
//! token program, and the metadata and master edition of the token metadata program.

use vstd::prelude::*;

use crate::account_info::AccountInfo;
use crate::codec::{read_opt_u64, read_u64, read_u8};
use crate::error::ProgramError;
use crate::pubkey::Pubkey;

verus! {

/// Length of the data of a token account.
pub const TOKEN_ACCOUNT_LEN: usize = 165;

/// The fields of a token account that the program reads.
#[derive(Clone, Copy, Debug)]
pub struct TokenAccountInfo {
    /// The mint of the tokens held
    pub mint: Pubkey,
    /// The owner of the tokens held
    pub owner: Pubkey,
    /// The account is initialized (or frozen), not uninitialized
    pub initialized: bool,
}

/// Whether the four bytes from `data[at]` are the tag of an optional field of a token
/// account: `[0, 0, 0, 0]` for none, `[1, 0, 0, 0]` for some.
pub open spec fn option_tag_ok(data: Seq<u8>, at: int) -> bool {
    &&& data[at] == 0u8 || data[at] == 1u8
    &&& data[at + 1] == 0u8 && data[at + 2] == 0u8 && data[at + 3] == 0u8
}

/// Whether data is a token account as the token program lays it out: `TOKEN_ACCOUNT_LEN`
/// bytes; the tags of the optional delegate, native amount and close authority at bytes
/// 72, 109 and 129; and a state (uninitialized, initialized or frozen) at byte 108.
pub open spec fn token_account_parses(data: Seq<u8>) -> bool {
    &&& data.len() == TOKEN_ACCOUNT_LEN
    &&& option_tag_ok(data, 72)
    &&& data[108] <= 2u8
    &&& option_tag_ok(data, 109)
    &&& option_tag_ok(data, 129)
}

/// `spl_token::state::Account::unpack_unchecked`: the data must be a token account as
/// `token_account_parses` says, else it fails with `InvalidAccountData`. The source reads
/// the mint from the first 32 bytes, the owner from the next 32 and the state from byte
/// 108, where 0 is uninitialized.
#[verifier::external_body]
fn unpack_token_account(data: &[u8]) -> (r: Option<TokenAccountInfo>)
    ensures
        r is Some == token_account_parses(data@),
        r matches Some(t) ==> t.mint@ == data@.subrange(0, 32) && t.owner@ == data@.subrange(32, 64)
            && t.initialized == (data@[108] != 0u8),
{
    match <spl_token::state::Account as solana_program::program_pack::Pack>::unpack_unchecked(data) {
        Ok(a) => Some(
            TokenAccountInfo {
                mint: Pubkey(a.mint.to_bytes()),
                owner: Pubkey(a.owner.to_bytes()),
                initialized: solana_program::program_pack::IsInitialized::is_initialized(&a),
            },
        ),
        Err(_) => None,
    }
}

/// What `assert_initialized` reads of token account data.
pub open spec fn initialized_token_account(data: Seq<u8>) -> Result<(Seq<u8>, Seq<u8>), ProgramError> {
    if !token_account_parses(data) {
        Err(ProgramError::InvalidAccountData)
    } else if data[108] == 0u8 {
        Err(ProgramError::UninitializedAccount)
    } else {
        Ok((data.subrange(0, 32), data.subrange(32, 64)))
    }
}

/// Reads the token account held by `account`, which must be initialized.
pub fn assert_initialized(account: &AccountInfo) -> (r: Result<TokenAccountInfo, ProgramError>)
    ensures
        match initialized_token_account(account.data@) {
            Ok((mint, owner)) => r matches Ok(t) && t.mint@ == mint && t.owner@ == owner,
            Err(e) => r == Err::<TokenAccountInfo, ProgramError>(e),
        },
{
    match unpack_token_account(account.data.as_slice()) {
        None => Err(ProgramError::InvalidAccountData),
        Some(t) => if t.initialized {
            Ok(t)
        } else {
            Err(ProgramError::UninitializedAccount)
        },
    }
}

/// A creator of a token as its metadata lists it: the address and the percentage of
/// the royalties that goes to it.
#[derive(Clone, Copy, Debug)]
pub struct CreatorShare {
    /// Address of the creator
    pub address: Pubkey,
    /// Share of the creator in percent
    pub share: u8,
}

/// The fields of a token's metadata that the program reads.
#[derive(Clone, Debug)]
pub struct MetadataInfo {
    /// The mint of the token
    pub mint: Pubkey,
    /// Royalty in basis points
    pub seller_fee_basis_points: u16,
    /// The creators, where there are any
    pub creators: Option<Vec<CreatorShare>>,
    /// The token has been sold once
    pub primary_sale_happened: bool,
}

/// `MetadataInfo` with addresses as bytes.
pub struct MetadataView {
    pub mint: Seq<u8>,
    pub seller_fee_basis_points: u16,
    pub creators: Option<Seq<(Seq<u8>, u8)>>,
    pub primary_sale_happened: bool,
}

/// The creators with their addresses as bytes.
pub open spec fn creators_view(c: Seq<CreatorShare>) -> Seq<(Seq<u8>, u8)> {
    c.map_values(|x: CreatorShare| (x.address@, x.share))
}

impl View for MetadataInfo {
    type V = MetadataView;

    open spec fn view(&self) -> MetadataView {
        MetadataView {
            mint: self.mint@,
            seller_fee_basis_points: self.seller_fee_basis_points,
            creators: match self.creators {
                Some(c) => Some(creators_view(c@)),
                None => None,
            },
            primary_sale_happened: self.primary_sale_happened,
        }
    }
}

/// What `mpl_token_metadata::accounts::Metadata::from_bytes` reads of metadata account
/// data: the mint, the royalty, the creators and whether the primary sale happened; `None`
/// where the data does not deserialize.
pub uninterp spec fn metadata_of(data: Seq<u8>) -> Option<(Seq<u8>, u16, Option<Seq<(Seq<u8>, u8)>>, bool)>;

/// The metadata as a tuple.
pub open spec fn metadata_tuple(m: MetadataView) -> (Seq<u8>, u16, Option<Seq<(Seq<u8>, u8)>>, bool) {
    (m.mint, m.seller_fee_basis_points, m.creators, m.primary_sale_happened)
}

/// `mpl_token_metadata::accounts::Metadata::from_bytes`, the borsh deserialization of a
/// metadata account; its result is named, not stated.
#[verifier::external_body]
fn metadata_from_bytes(data: &[u8]) -> (r: Option<MetadataInfo>)
    ensures
        r matches Some(m) ==> metadata_of(data@) == Some(metadata_tuple(m@)),
        r is None ==> metadata_of(data@) is None,
{
    match mpl_token_metadata::accounts::Metadata::from_bytes(data) {
        Ok(m) => Some(
            MetadataInfo {
                mint: Pubkey(m.mint.to_bytes()),
                seller_fee_basis_points: m.seller_fee_basis_points,
                creators: m.creators.map(
                    |cs| cs.iter().map(|c| CreatorShare { address: Pubkey(c.address.to_bytes()), share: c.share }).collect(),
                ),
                primary_sale_happened: m.primary_sale_happened,
            },
        ),
        Err(_) => None,
    }
}

/// Reads the metadata held by `account`; data that does not deserialize is a
/// `BorshIoError`.
pub fn read_metadata(account: &AccountInfo) -> (r: Result<MetadataInfo, ProgramError>)
    ensures
        match metadata_of(account.data@) {
            Some(m) => r matches Ok(x) && metadata_tuple(x@) == m,
            None => r == Err::<MetadataInfo, ProgramError>(ProgramError::BorshIoError),
        },
{
    match metadata_from_bytes(account.data.as_slice()) {
        Some(m) => Ok(m),
        None => Err(ProgramError::BorshIoError),
    }
}

/// Number of account keys of the token metadata program: a key's tag is below it.
pub const METADATA_KEY_COUNT: u8 = 15;

/// Tag of the key of a master edition account of the second version.
pub const MASTER_EDITION_V2_KEY: u8 = 6;

/// What `mpl_token_metadata::accounts::MasterEdition::from_bytes` reads of master edition
/// data: the tag of its key, below `METADATA_KEY_COUNT`; its supply, as 8 little-endian
/// bytes; its optional maximum supply, a tag 0 or 1 followed for 1 by 8 more bytes; what
/// follows is ignored. Gives the key's tag and the supply; `None` where the data does not
/// hold these.
pub open spec fn master_edition_of(data: Seq<u8>) -> Option<(u8, u64)> {
    match read_u8(data) {
        Some((key, r0)) => if key >= METADATA_KEY_COUNT {
            None
        } else {
            match read_u64(r0) {
                Some((supply, r1)) => match read_opt_u64(r1) {
                    Some(_) => Some((key, supply)),
                    None => None,
                },
                None => None,
            }
        },
        None => None,
    }
}

/// The supply that master edition data holds, as `master_edition_of` reads it.
pub open spec fn master_edition_supply_of(data: Seq<u8>) -> Option<u64> {
    match master_edition_of(data) {
        Some((_, supply)) => Some(supply),
        None => None,
    }
}

/// `mpl_token_metadata::accounts::MasterEdition::from_bytes`, the borsh deserialization of
/// a master edition account, keeping the tag of its key and its supply: the number of
/// editions printed so far. It reads what `master_edition_of` says.
#[verifier::external_body]
fn master_edition_from_bytes(data: &[u8]) -> (r: Option<(u8, u64)>)
    ensures
        r == master_edition_of(data@),
{
    match mpl_token_metadata::accounts::MasterEdition::from_bytes(data) {
        Ok(e) => Some((e.key as u8, e.supply)),
        Err(_) => None,
    }
}

/// Reads the key's tag and the supply of the master edition held by `account`; data that
/// does not deserialize is a `BorshIoError`.
pub fn read_master_edition(account: &AccountInfo) -> (r: Result<(u8, u64), ProgramError>)
    ensures
        match master_edition_of(account.data@) {
            Some(e) => r == Ok::<(u8, u64), ProgramError>(e),
            None => r == Err::<(u8, u64), ProgramError>(ProgramError::BorshIoError),
        },
{
    match master_edition_from_bytes(account.data.as_slice()) {
        Some(e) => Ok(e),
        None => Err(ProgramError::BorshIoError),
    }
}

/// The supply of the master edition held by `account`; data that does not deserialize
/// is a `BorshIoError`.
pub fn get_supply_off_master_edition(account: &AccountInfo) -> (r: Result<u64, ProgramError>)
    ensures
        match master_edition_supply_of(account.data@) {
            Some(s) => r == Ok::<u64, ProgramError>(s),
            None => r == Err::<u64, ProgramError>(ProgramError::BorshIoError),
        },
{
    match read_master_edition(account) {
        Ok((_, supply)) => Ok(supply),
        Err(e) => Err(e),
    }
}

/// The errors of the token metadata program that the master pass program reports.
#[derive(Clone, Copy, Debug, PartialEq, Eq, Structural)]
pub enum MetadataErrorKind {
    /// The account is not initialized
    Uninitialized,
    /// The edition's key is not that of a master edition
    InvalidEditionKey,
    /// The mint given is not the mint of the metadata
    MintMismatch,
    /// The account is not at its derived address
    DerivedKeyInvalid,
}

/// The number of each error in the token metadata program's error enum.
pub open spec fn metadata_error_code(k: MetadataErrorKind) -> u32 {
    match k {
        MetadataErrorKind::Uninitialized => 4,
        MetadataErrorKind::InvalidEditionKey => 6,
        MetadataErrorKind::MintMismatch => 15,
        MetadataErrorKind::DerivedKeyInvalid => 27,
    }
}

/// `mpl_token_metadata::errors::MplTokenMetadataError` as a number: the variant's place
/// in the enum, which the source also writes beside each variant (4, 6, 15 and 27 here).
#[verifier::external_body]
fn metadata_error_number(k: MetadataErrorKind) -> (r: u32)
    ensures
        r == metadata_error_code(k),
{
    match k {
        MetadataErrorKind::Uninitialized => mpl_token_metadata::errors::MplTokenMetadataError::Uninitialized as u32,
        MetadataErrorKind::InvalidEditionKey => mpl_token_metadata::errors::MplTokenMetadataError::InvalidEditionKey as u32,
        MetadataErrorKind::MintMismatch => mpl_token_metadata::errors::MplTokenMetadataError::MintMismatch as u32,
        MetadataErrorKind::DerivedKeyInvalid => mpl_token_metadata::errors::MplTokenMetadataError::DerivedKeyInvalid as u32,
    }
}

/// The custom program error that a token metadata program error converts to.
pub fn metadata_error(k: MetadataErrorKind) -> (r: ProgramError)
    ensures
        r == ProgramError::Custom(metadata_error_code(k)),
{
    ProgramError::Custom(metadata_error_number(k))
}

} // verus!
