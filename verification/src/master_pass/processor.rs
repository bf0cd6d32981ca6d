//! Creation of master passes.
//!
//! The instruction reads its accounts in this order: the master pass, the source token
//! account that holds the master edition's token, the token account that will hold it for
//! the master pass, the store of the authority, the authority, the payer, the master
//! edition's mint, its metadata and its master edition, then rent and the system program.
//! The accounts that it creates are created here as the program would find them
//! afterwards and listed for the caller; what the token program does (initializing the
//! new token account and moving the token) is named in a `MasterPassPlan` for the caller.

use vstd::prelude::*;

use crate::account_info::{AccountInfo, AccountInfoView};
use crate::codec::text_bytes;
use crate::error::{fail, program_error_of, NFTPassError, ProgramError};
use crate::master_pass::instruction::{
    instruction_from_slice, InitMasterPassArgs, InitMasterPassArgsView, NFTPassInstruction,
    NFTPassInstructionView,
};
use crate::master_pass::master_pass::{
    lemma_master_pass_bytes_len, lemma_master_pass_unpack_packed, master_pass_bytes, master_pass_ok,
    master_pass_unpack, master_pass_unpack_unchecked, InitMasterPassParams, MasterPass, MasterPassState,
    MasterPassView, MAX_MASTER_PASS_LEN,
};

use crate::master_pass::store::{
    lemma_store_bytes_len, lemma_store_unpack_inverse, lemma_store_unpack_packed, store_bytes, store_ok,
    store_unpack, store_unpack_unchecked, Store, StoreView,
};
use crate::master_pass::{master_prefix_seed, master_prefixed, master_program_id_bytes, AccountType};
use crate::pda::{find, program_address, push_seed, seeds_view};
use crate::processor::init_pass_book::step_done;
use crate::processor::{
    accounts_view, copy_accounts, copy_bytes, create_account, created, new_accounts_view, packed, set_data,
    with_data, zeros, NewAccount, NewAccountView,
};
use crate::pubkey::{metadata_program_id, metadata_program_id_bytes, token_program_id, token_program_id_bytes, Pubkey};
use crate::state::{IsInitialized, MAX_DESCRIPTION_LEN, MAX_NAME_LENGTH, MAX_PASS_LEN, MAX_URI_LENGTH};
use crate::text::{lemma_puffed_len, puffed};
use crate::token::{
    assert_initialized, initialized_token_account, master_edition_of, metadata_error, metadata_error_code,
    metadata_of, read_master_edition, read_metadata, MetadataErrorKind, MASTER_EDITION_V2_KEY,
};
use crate::utils::{assert_account_key, assert_owned_by, assert_signer};

verus! {

/// The first seed of the address of a master edition.
pub const EDITION_PREFIX: &'static str = "metadata";

/// The last seed of the address of a master edition.
pub const EDITION: &'static str = "edition";

/// What the caller does once the accounts are checked: it initializes the token account
/// `accounts[token_account]` for the mint `accounts[mint]`, owned by the master pass
/// `accounts[owner]`, then moves `amount` tokens into it from `accounts[source]`, with
/// `accounts[authority]` signing.
#[derive(Clone, Copy, Debug, PartialEq, Eq, Structural)]
pub struct MasterPassPlan {
    pub token_account: usize,
    pub mint: usize,
    pub owner: usize,
    pub source: usize,
    pub authority: usize,
    pub amount: u64,
}

impl View for MasterPassPlan {
    type V = MasterPassPlan;

    open spec fn view(&self) -> MasterPassPlan {
        *self
    }
}

/// The plan of every master pass: the one token of the master edition moves from the
/// source account to a token account of the mint that the master pass owns.
pub open spec fn master_pass_plan() -> MasterPassPlan {
    MasterPassPlan { token_account: 2, mint: 6, owner: 0, source: 1, authority: 4, amount: 1 }
}

/// The address of the store of `authority`, with its bump seed.
pub open spec fn master_store_address(program_id: Seq<u8>, authority: Seq<u8>) -> Option<(Seq<u8>, u8)> {
    program_address(seq![master_prefix_seed(), program_id, authority, text_bytes(Store::PREFIX@)], program_id)
}

/// The seeds that sign for the store of `authority`, bump seed last.
pub open spec fn master_store_seeds(program_id: Seq<u8>, authority: Seq<u8>, bump: u8) -> Seq<Seq<u8>> {
    seq![master_prefix_seed(), program_id, authority, text_bytes(Store::PREFIX@), seq![bump]]
}

/// The address of the master pass of `mint`, with its bump seed.
pub open spec fn master_pass_address(program_id: Seq<u8>, mint: Seq<u8>) -> Option<(Seq<u8>, u8)> {
    program_address(seq![master_prefix_seed(), program_id, mint], program_id)
}

/// The seeds that sign for the master pass of `mint`, bump seed last.
pub open spec fn master_pass_seeds(program_id: Seq<u8>, mint: Seq<u8>, bump: u8) -> Seq<Seq<u8>> {
    seq![master_prefix_seed(), program_id, mint, seq![bump]]
}

/// The address of the master edition of `mint` under the token metadata program.
pub open spec fn edition_address(mint: Seq<u8>) -> Option<(Seq<u8>, u8)> {
    program_address(
        seq![text_bytes(EDITION_PREFIX@), metadata_program_id_bytes(), mint, text_bytes(EDITION@)],
        metadata_program_id_bytes(),
    )
}

/// A store initialized for `authority`, with all counts at zero.
pub open spec fn master_store_init_view(authority: Seq<u8>) -> StoreView {
    StoreView {
        account_type: AccountType::Store,
        authority,
        redemptions_count: 0,
        editions_count: 0,
        pass_collection_count: 0,
    }
}

/// How the store in `a[3]` is opened: read where it is initialized, else created (with
/// `bump`) and initialized for the authority `a[4]`.
pub open spec fn master_store_stage(program_id: Seq<u8>, a: Seq<AccountInfoView>, bump: u8) -> Result<
    (StoreView, Seq<AccountInfoView>, Seq<NewAccountView>),
    ProgramError,
> {
    match store_unpack(a[3].data) {
        Ok(s) => Ok((s, a, seq![])),
        Err(_) => match store_unpack_unchecked(zeros(MAX_PASS_LEN as nat)) {
            Ok(_) => Ok(
                (
                    master_store_init_view(a[4].key),
                    created(a, 3, MAX_PASS_LEN as nat, program_id),
                    seq![
                        NewAccountView {
                            index: 3,
                            size: MAX_PASS_LEN,
                            seeds: master_store_seeds(program_id, a[4].key, bump),
                        },
                    ],
                ),
            ),
            Err(e) => Err(e),
        },
    }
}

/// The checks of the texts of a new master pass: each must fit its greatest length.
pub open spec fn master_pass_args_check(args: InitMasterPassArgsView) -> Result<(), ProgramError> {
    if text_bytes(args.name).len() > MAX_NAME_LENGTH {
        Err(program_error_of(NFTPassError::NameTooLong))
    } else if text_bytes(args.uri).len() > MAX_URI_LENGTH {
        Err(program_error_of(NFTPassError::UriTooLong))
    } else if text_bytes(args.description).len() > MAX_DESCRIPTION_LEN {
        Err(program_error_of(NFTPassError::DescriptionTooLong))
    } else {
        Ok(())
    }
}

/// The new master pass of `mint` for `authority`: not yet activated, with its URI and
/// description padded to their greatest lengths.
pub open spec fn new_master_pass(args: InitMasterPassArgsView, authority: Seq<u8>, mint: Seq<u8>) -> MasterPassView {
    MasterPassView {
        account_type: AccountType::MasterPass,
        mint,
        authority,
        description: puffed(args.description, MAX_DESCRIPTION_LEN),
        uri: puffed(args.uri, MAX_URI_LENGTH),
        name: args.name,
        mutable: args.mutable,
        period: args.period,
        pass_state: MasterPassState::NotActivated,
    }
}

/// The checks of the master edition `a[8]`, its metadata `a[7]` and the source token
/// account `a[1]`: the master edition must hold data, read as a master edition of the
/// second version; the metadata must be of the mint `a[6]`; the master edition must be at
/// its derived address; the source must be an initialized token account of the mint.
pub open spec fn master_pass_sources_check(a: Seq<AccountInfoView>) -> Option<Result<(), ProgramError>> {
    if a[8].data.len() == 0 {
        Some(Err(ProgramError::Custom(metadata_error_code(MetadataErrorKind::Uninitialized))))
    } else {
        match master_edition_of(a[8].data) {
            None => Some(Err(ProgramError::BorshIoError)),
            Some((key, _)) => if key != MASTER_EDITION_V2_KEY {
                Some(Err(ProgramError::Custom(metadata_error_code(MetadataErrorKind::InvalidEditionKey))))
            } else {
                match metadata_of(a[7].data) {
                    None => Some(Err(ProgramError::BorshIoError)),
                    Some(t) => if a[6].key != t.0 {
                        Some(Err(program_error_of(NFTPassError::InvalidMintKey)))
                    } else {
                        match edition_address(t.0) {
                            None => None,
                            Some((edition, _)) => if a[8].key != edition {
                                Some(Err(ProgramError::Custom(metadata_error_code(MetadataErrorKind::DerivedKeyInvalid))))
                            } else {
                                match initialized_token_account(a[1].data) {
                                    Err(e) => Some(Err(e)),
                                    Ok((mint, _)) => if mint != t.0 {
                                        Some(Err(ProgramError::Custom(metadata_error_code(MetadataErrorKind::MintMismatch))))
                                    } else {
                                        Some(Ok(()))
                                    },
                                }
                            },
                        }
                    },
                }
            },
        }
    }
}

/// How the master pass `m` and the store `s`, with one more master pass, are written to
/// `a[0]` and `a[3]`.
pub open spec fn master_pass_finish(a: Seq<AccountInfoView>, m: MasterPassView, s: StoreView) -> Result<
    Seq<AccountInfoView>,
    ProgramError,
> {
    match packed(a[0].data, master_pass_bytes(m), MAX_MASTER_PASS_LEN) {
        Err(e) => Err(e),
        Ok(d0) => if s.pass_collection_count == u64::MAX {
            Err(program_error_of(NFTPassError::Overflow))
        } else {
            let s2 = StoreView { pass_collection_count: (s.pass_collection_count + 1) as u64, ..s };
            match packed(a[3].data, store_bytes(s2), MAX_PASS_LEN) {
                Err(e) => Err(e),
                Ok(d3) => Ok(with_data(with_data(a, 0, d0), 3, d3)),
            }
        },
    }
}

/// What the instruction does once the master pass account is created: the data it reads
/// must not be an initialized master pass; the texts are checked; the master edition, its
/// metadata and the source are checked; the master pass and the store are written.
pub open spec fn master_pass_after_create(
    a: Seq<AccountInfoView>,
    c: Seq<NewAccountView>,
    s: StoreView,
    args: InitMasterPassArgsView,
) -> Option<Result<(Seq<AccountInfoView>, Seq<NewAccountView>), ProgramError>> {
    match master_pass_unpack_unchecked(a[0].data) {
        Err(e) => Some(Err(e)),
        Ok(m) => if m.account_type == AccountType::MasterPass {
            Some(Err(ProgramError::AccountAlreadyInitialized))
        } else {
            match master_pass_args_check(args) {
                Err(e) => Some(Err(e)),
                Ok(()) => match master_pass_sources_check(a) {
                    None => None,
                    Some(Err(e)) => Some(Err(e)),
                    Some(Ok(())) => match master_pass_finish(a, new_master_pass(args, a[4].key, a[6].key), s) {
                        Err(e) => Some(Err(e)),
                        Ok(a2) => Some(Ok((a2, c))),
                    },
                },
            }
        },
    }
}

/// What the instruction does to the accounts: the authority must sign; the mint must
/// belong to the token program and the master edition and metadata to the token metadata
/// program; the store must be at the authority's derived address and, once opened (see
/// `master_store_stage`), belong to the authority; the master pass must be at the mint's
/// derived address, and is created; the rest follows `master_pass_after_create`. `None`
/// where the program panics: no address can be derived for a seed.
pub open spec fn master_pass_steps(program_id: Seq<u8>, a: Seq<AccountInfoView>, args: InitMasterPassArgsView) -> Option<
    Result<(Seq<AccountInfoView>, Seq<NewAccountView>), ProgramError>,
> {
    if a.len() < 11 {
        Some(Err(ProgramError::NotEnoughAccountKeys))
    } else if !a[4].is_signer {
        Some(Err(ProgramError::MissingRequiredSignature))
    } else if a[6].owner != token_program_id_bytes() || a[8].owner != metadata_program_id_bytes() || a[7].owner
        != metadata_program_id_bytes() {
        Some(Err(ProgramError::IllegalOwner))
    } else {
        match master_store_address(program_id, a[4].key) {
            None => None,
            Some((store_key, store_bump)) => if a[3].key != store_key {
                Some(Err(program_error_of(NFTPassError::InvalidStoreKey)))
            } else {
                match master_store_stage(program_id, a, store_bump) {
                    Err(e) => Some(Err(e)),
                    Ok((s, a1, c1)) => if a[4].key != s.authority {
                        Some(Err(program_error_of(NFTPassError::InvalidCreatorKey)))
                    } else {
                        match master_pass_address(program_id, a[6].key) {
                            None => None,
                            Some((key, bump)) => if a[0].key != key {
                                Some(Err(program_error_of(NFTPassError::InvalidPassBookKey)))
                            } else {
                                master_pass_after_create(
                                    created(a1, 0, MAX_MASTER_PASS_LEN as nat, master_program_id_bytes()),
                                    c1.push(
                                        NewAccountView {
                                            index: 0,
                                            size: MAX_MASTER_PASS_LEN,
                                            seeds: master_pass_seeds(program_id, a[6].key, bump),
                                        },
                                    ),
                                    s,
                                    args,
                                )
                            },
                        }
                    },
                }
            },
        }
    }
}

/// What creating a master pass does: see `master_pass_steps`; on success the caller also
/// carries out `master_pass_plan`.
pub open spec fn init_master_pass_outcome(program_id: Seq<u8>, a: Seq<AccountInfoView>, args: InitMasterPassArgsView) -> Option<
    Result<(Seq<AccountInfoView>, Seq<NewAccountView>, MasterPassPlan), ProgramError>,
> {
    match master_pass_steps(program_id, a, args) {
        None => None,
        Some(Err(e)) => Some(Err(e)),
        Some(Ok((a2, c))) => Some(Ok((a2, c, master_pass_plan()))),
    }
}

/// The seeds that sign for the store of `authority`.
fn master_store_signer_seeds(program_id: &Pubkey, authority: &Pubkey, bump: u8) -> (r: Vec<Vec<u8>>)
    ensures
        seeds_view(r@) == master_store_seeds(program_id@, authority@, bump),
{
    let mut seeds = master_prefixed(program_id);
    push_seed(&mut seeds, authority.0.as_slice());
    push_seed(&mut seeds, Store::PREFIX.as_bytes());
    let b = [bump];
    assert(b@ =~= seq![bump]);
    push_seed(&mut seeds, b.as_slice());
    assert(seeds_view(seeds@) =~= master_store_seeds(program_id@, authority@, bump));
    seeds
}

/// The seeds that sign for the master pass of `mint`.
fn master_pass_signer_seeds(program_id: &Pubkey, mint: &Pubkey, bump: u8) -> (r: Vec<Vec<u8>>)
    ensures
        seeds_view(r@) == master_pass_seeds(program_id@, mint@, bump),
{
    let mut seeds = master_prefixed(program_id);
    push_seed(&mut seeds, mint.0.as_slice());
    let b = [bump];
    assert(b@ =~= seq![bump]);
    push_seed(&mut seeds, b.as_slice());
    assert(seeds_view(seeds@) =~= master_pass_seeds(program_id@, mint@, bump));
    seeds
}

/// The address of the master edition of `mint`, with its bump seed.
pub fn find_edition_address(mint: &Pubkey) -> (r: Option<(Pubkey, u8)>)
    ensures
        crate::pda::address_view(r) == edition_address(mint@),
{
    let metadata_program = metadata_program_id();
    let mut seeds: Vec<Vec<u8>> = Vec::new();
    push_seed(&mut seeds, EDITION_PREFIX.as_bytes());
    push_seed(&mut seeds, metadata_program.0.as_slice());
    push_seed(&mut seeds, mint.0.as_slice());
    push_seed(&mut seeds, EDITION.as_bytes());
    assert(seeds_view(seeds@) =~= seq![
        text_bytes(EDITION_PREFIX@),
        metadata_program_id_bytes(),
        mint@,
        text_bytes(EDITION@),
    ]);
    find(seeds, &metadata_program)
}

/// Opens the store of the authority `accounts[4]` in `accounts[3]`: reads it where it is
/// initialized, else creates and initializes it.
pub fn get_master_store(
    program_id: &Pubkey,
    accounts: &mut Vec<AccountInfo>,
    new_accounts: &mut Vec<NewAccount>,
    bump: u8,
) -> (r: Result<Store, ProgramError>)
    requires
        old(accounts)@.len() >= 11,
        old(new_accounts)@.len() == 0,
    ensures
        final(accounts)@.len() == old(accounts)@.len(),
        match master_store_stage(program_id@, accounts_view(old(accounts)@), bump) {
            Ok((s, a, c)) => r matches Ok(x) && x@ == s && accounts_view(final(accounts)@) == a
                && new_accounts_view(final(new_accounts)@) == c,
            Err(e) => r == Err::<Store, ProgramError>(e),
        },
{
    assert(new_accounts_view(new_accounts@) =~= seq![]);
    match Store::unpack(accounts[3].data.as_slice()) {
        Ok(s) => Ok(s),
        Err(_) => {
            let authority = accounts[4].key;
            let seeds = master_store_signer_seeds(program_id, &authority, bump);
            create_account(accounts, new_accounts, 3, MAX_PASS_LEN, program_id, seeds);
            assert(accounts_view(accounts@)[3] == accounts@[3]@);
            let mut data = Store::unpack_unchecked(accounts[3].data.as_slice())?;
            data.init(authority);
            assert(new_accounts_view(new_accounts@) =~= seq![
                NewAccountView { index: 3, size: MAX_PASS_LEN, seeds: master_store_seeds(program_id@, authority@, bump) },
            ]);
            Ok(data)
        },
    }
}

/// Checks the texts of a new master pass.
pub fn check_master_pass_args(args: &InitMasterPassArgs) -> (r: Result<(), ProgramError>)
    ensures
        r == master_pass_args_check(args@),
{
    if args.name.as_str().as_bytes().len() > MAX_NAME_LENGTH {
        return Err(fail(NFTPassError::NameTooLong));
    }
    if args.uri.as_str().as_bytes().len() > MAX_URI_LENGTH {
        return Err(fail(NFTPassError::UriTooLong));
    }
    if args.description.as_str().as_bytes().len() > MAX_DESCRIPTION_LEN {
        return Err(fail(NFTPassError::DescriptionTooLong));
    }
    Ok(())
}

/// Checks the master edition, its metadata and the source token account.
pub fn check_master_pass_sources(accounts: &Vec<AccountInfo>) -> (r: Option<Result<(), ProgramError>>)
    requires
        accounts@.len() >= 11,
    ensures
        r == master_pass_sources_check(accounts_view(accounts@)),
{
    assert(accounts_view(accounts@)[8] == accounts@[8]@);
    assert(accounts_view(accounts@)[7] == accounts@[7]@);
    assert(accounts_view(accounts@)[6] == accounts@[6]@);
    assert(accounts_view(accounts@)[1] == accounts@[1]@);
    if accounts[8].data.len() == 0 {
        return Some(Err(metadata_error(MetadataErrorKind::Uninitialized)));
    }
    let (key, _) = match read_master_edition(&accounts[8]) {
        Ok(e) => e,
        Err(e) => return Some(Err(e)),
    };
    if key != MASTER_EDITION_V2_KEY {
        return Some(Err(metadata_error(MetadataErrorKind::InvalidEditionKey)));
    }
    let metadata = match read_metadata(&accounts[7]) {
        Ok(m) => m,
        Err(e) => return Some(Err(e)),
    };
    if let Err(e) = assert_account_key(&accounts[6], &metadata.mint, Some(NFTPassError::InvalidMintKey)) {
        return Some(Err(e));
    }
    let (edition, _) = match find_edition_address(&metadata.mint) {
        Some(x) => x,
        None => return None,
    };
    if accounts[8].key != edition {
        return Some(Err(metadata_error(MetadataErrorKind::DerivedKeyInvalid)));
    }
    let source = match assert_initialized(&accounts[1]) {
        Ok(t) => t,
        Err(e) => return Some(Err(e)),
    };
    if source.mint != metadata.mint {
        return Some(Err(metadata_error(MetadataErrorKind::MintMismatch)));
    }
    Some(Ok(()))
}

/// A new master pass whose name, URI and description fit their greatest lengths fits the
/// format and the account once padded.
proof fn lemma_new_master_pass_fits(args: InitMasterPassArgsView, authority: Seq<u8>, mint: Seq<u8>)
    requires
        authority.len() == 32,
        mint.len() == 32,
        master_pass_args_check(args) is Ok,
    ensures
        master_pass_ok(new_master_pass(args, authority, mint)),
        master_pass_bytes(new_master_pass(args, authority, mint)).len() <= MAX_MASTER_PASS_LEN,
{
    lemma_puffed_len(args.uri, MAX_URI_LENGTH);
    lemma_puffed_len(args.description, MAX_DESCRIPTION_LEN);
    let v = new_master_pass(args, authority, mint);
    lemma_master_pass_bytes_len(v);
    assert(crate::master_pass::master_pass::period_bytes(v.period).len() <= 5);
}

/// Writes the master pass and the store, with one more master pass.
fn finish_master_pass(accounts: &mut Vec<AccountInfo>, master_pass: MasterPass, store: Store) -> (r: Result<
    (),
    ProgramError,
>)
    requires
        old(accounts)@.len() >= 11,
        master_pass_ok(master_pass@),
        master_pass_bytes(master_pass@).len() <= MAX_MASTER_PASS_LEN,
    ensures
        match master_pass_finish(accounts_view(old(accounts)@), master_pass@, store@) {
            Ok(a) => r is Ok && accounts_view(final(accounts)@) == a,
            Err(e) => r == Err::<(), ProgramError>(e),
        },
{
    let mut store = store;
    let mut data = copy_bytes(&accounts[0].data);
    MasterPass::pack(master_pass, data.as_mut_slice())?;
    store.increment_pass_collection_count()?;
    proof {
        lemma_store_bytes_len(store@);
    }
    let mut store_data = copy_bytes(&accounts[3].data);
    Store::pack(store, store_data.as_mut_slice())?;
    set_data(accounts, 0, data);
    set_data(accounts, 3, store_data);
    Ok(())
}

/// The steps of creating a master pass.
fn init_master_pass_steps(
    program_id: &Pubkey,
    accounts: &mut Vec<AccountInfo>,
    new_accounts: &mut Vec<NewAccount>,
    args: InitMasterPassArgs,
) -> (r: Option<Result<(), ProgramError>>)
    requires
        old(new_accounts)@.len() == 0,
    ensures
        step_done(
            r,
            accounts_view(final(accounts)@),
            new_accounts_view(final(new_accounts)@),
            master_pass_steps(program_id@, accounts_view(old(accounts)@), args@),
        ),
{
    if accounts.len() < 11 {
        return Some(Err(ProgramError::NotEnoughAccountKeys));
    }
    if let Err(e) = assert_signer(&accounts[4]) {
        return Some(Err(e));
    }
    if let Err(e) = assert_owned_by(&accounts[6], &token_program_id()) {
        return Some(Err(e));
    }
    if let Err(e) = assert_owned_by(&accounts[8], &metadata_program_id()) {
        return Some(Err(e));
    }
    if let Err(e) = assert_owned_by(&accounts[7], &metadata_program_id()) {
        return Some(Err(e));
    }
    let authority = accounts[4].key;
    let mint = accounts[6].key;
    let (store_key, store_bump) = match crate::master_pass::find_pass_store_program_address(program_id, &authority) {
        Some(x) => x,
        None => return None,
    };
    if let Err(e) = assert_account_key(&accounts[3], &store_key, Some(NFTPassError::InvalidStoreKey)) {
        return Some(Err(e));
    }
    let store = match get_master_store(program_id, accounts, new_accounts, store_bump) {
        Ok(s) => s,
        Err(e) => return Some(Err(e)),
    };
    if authority != store.authority {
        return Some(Err(fail(NFTPassError::InvalidCreatorKey)));
    }
    let (master_pass_key, bump) = match crate::master_pass::find_master_pass_program_address(program_id, &mint) {
        Some(x) => x,
        None => return None,
    };
    assert(accounts_view(accounts@)[0] == accounts@[0]@);
    if accounts[0].key != master_pass_key {
        return Some(Err(fail(NFTPassError::InvalidPassBookKey)));
    }
    let seeds = master_pass_signer_seeds(program_id, &mint, bump);
    create_account(accounts, new_accounts, 0, MAX_MASTER_PASS_LEN, &crate::master_pass::id(), seeds);
    assert(accounts_view(accounts@)[0] == accounts@[0]@);
    let mut master_pass = match MasterPass::unpack_unchecked(accounts[0].data.as_slice()) {
        Ok(m) => m,
        Err(e) => return Some(Err(e)),
    };
    if master_pass.is_initialized() {
        return Some(Err(ProgramError::AccountAlreadyInitialized));
    }
    if let Err(e) = check_master_pass_args(&args) {
        return Some(Err(e));
    }
    master_pass.init(
        InitMasterPassParams {
            name: args.name,
            description: args.description,
            uri: args.uri,
            authority,
            mint,
            mutable: args.mutable,
            period: args.period,
        },
    );
    master_pass.puff_out_data_fields();
    match check_master_pass_sources(accounts) {
        None => return None,
        Some(Err(e)) => return Some(Err(e)),
        Some(Ok(())) => {},
    }
    proof {
        lemma_new_master_pass_fits(args@, authority@, mint@);
    }
    match finish_master_pass(accounts, master_pass, store) {
        Ok(()) => Some(Ok(())),
        Err(e) => Some(Err(e)),
    }
}

/// Process InitMasterPass instruction: works out what creating a master pass does to
/// `accounts`, gives the accounts to create first in `new_accounts`, and what the caller
/// then has the token program do (see `MasterPassPlan`). `None` where the program panics:
/// no address can be derived for a seed. On an error nothing changes.
pub fn init_master_pass_book(
    program_id: &Pubkey,
    accounts: &mut Vec<AccountInfo>,
    new_accounts: &mut Vec<NewAccount>,
    args: InitMasterPassArgs,
) -> (r: Option<Result<MasterPassPlan, ProgramError>>)
    ensures
        match init_master_pass_outcome(program_id@, accounts_view(old(accounts)@), args@) {
            None => r is None && final(accounts)@ == old(accounts)@ && final(new_accounts)@ == old(new_accounts)@,
            Some(Err(e)) => r == Some(Err::<MasterPassPlan, ProgramError>(e)) && final(accounts)@ == old(accounts)@
                && final(new_accounts)@ == old(new_accounts)@,
            Some(Ok((a, c, plan))) => r matches Some(Ok(p)) && p@ == plan && accounts_view(final(accounts)@) == a
                && new_accounts_view(final(new_accounts)@) == c,
        },
{
    let mut work = copy_accounts(accounts);
    let mut created_accounts: Vec<NewAccount> = Vec::new();
    match init_master_pass_steps(program_id, &mut work, &mut created_accounts, args) {
        None => None,
        Some(Err(e)) => Some(Err(e)),
        Some(Ok(())) => {
            *accounts = work;
            *new_accounts = created_accounts;
            Some(Ok(MasterPassPlan { token_account: 2, mint: 6, owner: 0, source: 1, authority: 4, amount: 1 }))
        },
    }
}

/// What an instruction of the master pass program does: its data must read as an
/// instruction (see `instruction_from_slice`), which then runs.
pub open spec fn master_instruction_outcome(program_id: Seq<u8>, a: Seq<AccountInfoView>, input: Seq<u8>) -> Option<
    Result<(Seq<AccountInfoView>, Seq<NewAccountView>, MasterPassPlan), ProgramError>,
> {
    match instruction_from_slice(input) {
        Err(e) => Some(Err(e)),
        Ok(NFTPassInstructionView::InitMasterPass(args)) => init_master_pass_outcome(program_id, a, args),
    }
}

/// The master pass program's processor.
pub struct Processor {}

impl Processor {
    /// Processes an instruction of the master pass program.
    pub fn process_instruction(
        program_id: &Pubkey,
        accounts: &mut Vec<AccountInfo>,
        new_accounts: &mut Vec<NewAccount>,
        input: &[u8],
    ) -> (r: Option<Result<MasterPassPlan, ProgramError>>)
        ensures
            match master_instruction_outcome(program_id@, accounts_view(old(accounts)@), input@) {
                None => r is None && final(accounts)@ == old(accounts)@ && final(new_accounts)@ == old(new_accounts)@,
                Some(Err(e)) => r == Some(Err::<MasterPassPlan, ProgramError>(e)) && final(accounts)@ == old(accounts)@
                    && final(new_accounts)@ == old(new_accounts)@,
                Some(Ok((a, c, plan))) => r matches Some(Ok(p)) && p@ == plan && accounts_view(final(accounts)@) == a
                    && new_accounts_view(final(new_accounts)@) == c,
            },
    {
        match NFTPassInstruction::try_from_slice(input) {
            Err(e) => Some(Err(e)),
            Ok(NFTPassInstruction::InitMasterPass(args)) => init_master_pass_book(program_id, accounts, new_accounts, args),
        }
    }
}

/// A master pass that `init_master_pass_book` creates reads back with what the arguments
/// give: its name, its URI and description padded, its mutability and period; the
/// authority `accounts[4]` and the mint `accounts[6]`; not yet activated. The store
/// `accounts[3]` reads back as the authority's, counting one master pass more than it
/// held, or one where it was not yet initialized.
pub proof fn lemma_init_master_pass_takes_the_arguments(
    program_id: Seq<u8>,
    accounts: Seq<AccountInfo>,
    args: InitMasterPassArgsView,
)
    requires
        init_master_pass_outcome(program_id, accounts_view(accounts), args) matches Some(Ok(_)),
    ensures
        ({
            let b = init_master_pass_outcome(program_id, accounts_view(accounts), args)->Some_0->Ok_0.0;
            &&& master_pass_unpack(b[0].data) matches Ok(p) && p.account_type == AccountType::MasterPass
                && p.pass_state == MasterPassState::NotActivated && p.name == args.name && p.uri == puffed(
                args.uri,
                MAX_URI_LENGTH,
            ) && p.description == puffed(args.description, MAX_DESCRIPTION_LEN) && p.mutable == args.mutable
                && p.period == args.period && p.authority == accounts[4].key@ && p.mint == accounts[6].key@
            &&& store_unpack(b[3].data) matches Ok(st) && st.authority == accounts[4].key@
                && st.pass_collection_count == match store_unpack(accounts[3].data@) {
                Ok(before) => before.pass_collection_count + 1,
                Err(_) => 1,
            }
        }),
{
    let a = accounts_view(accounts);
    assert(a[3] == accounts[3]@ && a[4] == accounts[4]@ && a[6] == accounts[6]@);
    let (store_key, store_bump) = master_store_address(program_id, a[4].key)->Some_0;
    let (s, a1, c1) = master_store_stage(program_id, a, store_bump)->Ok_0;
    lemma_store_unpack_inverse(a[3].data);
    let (key, bump) = master_pass_address(program_id, a[6].key)->Some_0;
    let a2 = created(a1, 0, MAX_MASTER_PASS_LEN as nat, master_program_id_bytes());
    assert(a2[4].key == a[4].key && a2[6].key == a[6].key);
    lemma_master_pass_writes_read_back(a2, args, a[4].key, a[6].key, s);
}

/// What creating a master pass writes reads back: the new master pass, padded, in
/// account 0, and the store, with one more master pass, in account 3.
pub proof fn lemma_master_pass_writes_read_back(
    a: Seq<AccountInfoView>,
    args: InitMasterPassArgsView,
    authority: Seq<u8>,
    mint: Seq<u8>,
    s: StoreView,
)
    requires
        a.len() >= 4,
        authority.len() == 32,
        mint.len() == 32,
        master_pass_args_check(args) is Ok,
        master_pass_finish(a, new_master_pass(args, authority, mint), s) is Ok,
        store_ok(s),
        s.account_type == AccountType::Store,
    ensures
        master_pass_unpack(master_pass_finish(a, new_master_pass(args, authority, mint), s)->Ok_0[0].data) == Ok::<
            MasterPassView,
            ProgramError,
        >(new_master_pass(args, authority, mint)),
        store_unpack(master_pass_finish(a, new_master_pass(args, authority, mint), s)->Ok_0[3].data) == Ok::<
            StoreView,
            ProgramError,
        >(StoreView { pass_collection_count: (s.pass_collection_count + 1) as u64, ..s }),
{
    lemma_new_master_pass_fits(args, authority, mint);
    let v = new_master_pass(args, authority, mint);
    lemma_master_pass_unpack_packed(v, a[0].data.skip(master_pass_bytes(v).len() as int));
    let s2 = StoreView { pass_collection_count: (s.pass_collection_count + 1) as u64, ..s };
    lemma_store_bytes_len(s2);
    lemma_store_unpack_packed(s2, a[3].data.skip(store_bytes(s2).len() as int));
}

} // verus!
