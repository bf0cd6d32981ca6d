//! Creation of pass books.
//!
//! The instruction reads its accounts in this order: the pass book, the store of the
//! creator, the creator, the payer, the price mint, the clock, rent and system program
//! accounts, then the payout account and treasury of the creator, then, where the
//! arguments say so, the market authority with its payout account and treasury, then the
//! referrer with its payout account and treasury. Accounts that it has to create are
//! created here as the program would find them afterwards, and listed for the caller,
//! which creates them on chain before it writes the accounts' new data.

use vstd::prelude::*;

use crate::account_info::{AccountInfo, AccountInfoView};
use crate::codec::{opt_key_view, text_bytes};
use crate::error::{fail, program_error_of, NFTPassError, ProgramError};
use crate::instruction::{InitPassBookArgs, InitPassBookArgsView};
use crate::pda::{
    associated_token_address, find_pass_store_program_address, find_payout_program_address,
    prefix_seed, prefixed, program_address, push_seed, seeds_view,
};
use crate::processor::edit_pass_book::puffed_view;
use crate::processor::{
    accounts_view, copy_accounts, copy_bytes, create_account, created, new_accounts_view, packed,
    set_data, with_data, zeros, NewAccount, NewAccountView,
};
use crate::pubkey::{
    associated_token_program_id_bytes, native_mint_id, native_mint_id_bytes, token_program_id,
    token_program_id_bytes, Pubkey,
};
use crate::state::pass_book::{
    lemma_pass_book_bytes_len, lemma_pass_book_unpack_packed, pass_book_bytes, pass_book_ok,
    pass_book_unpack, pass_book_unpack_unchecked, PassBookView, MAX_PASS_BOOK_LEN,
};
use crate::state::payout::{
    lemma_payout_bytes_len, payout_bytes, payout_unpack, payout_unpack_unchecked, PayoutView,
    MAX_PAYOUT_LEN,
};
use crate::state::store::{
    lemma_store_bytes_len, lemma_store_unpack_packed, store_bytes, store_ok, store_unpack,
    store_unpack_unchecked, StoreView, MAX_STORE_LEN,
};
use crate::state::{
    AccountType, InitPassBook, IsInitialized, PassBook, PassBookState, Payout, Store,
    MAX_DESCRIPTION_LEN, MAX_NAME_LENGTH, MAX_URI_LENGTH,
};
use crate::text::{lemma_puffed_len, puffed};
use crate::token::{assert_initialized, initialized_token_account};
use crate::utils::{assert_account_key, assert_owned_by, assert_signer, cmp_pubkeys};

verus! {

/// The address of the store of `creator`, with its bump seed.
pub open spec fn store_address(program_id: Seq<u8>, creator: Seq<u8>) -> Option<(Seq<u8>, u8)> {
    program_address(seq![prefix_seed(), program_id, creator, text_bytes(Store::PREFIX@)], program_id)
}

/// The seeds that sign for the store of `creator`, bump seed last.
pub open spec fn store_seeds(program_id: Seq<u8>, creator: Seq<u8>, bump: u8) -> Seq<Seq<u8>> {
    seq![prefix_seed(), program_id, creator, text_bytes(Store::PREFIX@), seq![bump]]
}

/// The address of the payout account of `authority` for payments in `mint`.
pub open spec fn payout_address(program_id: Seq<u8>, authority: Seq<u8>, mint: Seq<u8>) -> Option<(Seq<u8>, u8)> {
    program_address(seq![prefix_seed(), program_id, authority, mint, text_bytes(Payout::PREFIX@)], program_id)
}

/// The seeds that sign for the payout account of `authority` for `mint`, bump seed last.
pub open spec fn payout_seeds(program_id: Seq<u8>, authority: Seq<u8>, mint: Seq<u8>, bump: u8) -> Seq<Seq<u8>> {
    seq![prefix_seed(), program_id, authority, mint, text_bytes(Payout::PREFIX@), seq![bump]]
}

/// The associated token account of `wallet` for `mint`.
pub open spec fn token_address(wallet: Seq<u8>, mint: Seq<u8>) -> Option<(Seq<u8>, u8)> {
    program_address(seq![wallet, token_program_id_bytes(), mint], associated_token_program_id_bytes())
}

/// The outcome of a step: `None` where the program panics (no address can be derived,
/// or a text is too long to pad), else the error, or the accounts and the accounts
/// created so far.
pub open spec fn step_done(
    r: Option<Result<(), ProgramError>>,
    a: Seq<AccountInfoView>,
    c: Seq<NewAccountView>,
    outcome: Option<Result<(Seq<AccountInfoView>, Seq<NewAccountView>), ProgramError>>,
) -> bool {
    match outcome {
        None => r is None,
        Some(Err(e)) => r == Some(Err::<(), ProgramError>(e)),
        Some(Ok((x, y))) => r == Some(Ok::<(), ProgramError>(())) && a == x && c == y,
    }
}

/// A store initialized for `authority`: counts at zero, referral fields as they were.
pub open spec fn store_init_view(s: StoreView, authority: Seq<u8>) -> StoreView {
    StoreView {
        account_type: AccountType::Store,
        authority,
        redemptions_count: 0,
        membership_count: 0,
        active_membership_count: 0,
        pass_count: 0,
        pass_book_count: 0,
        ..s
    }
}

/// How the store in `a[1]` is opened: read where it is initialized, else created (with
/// `bump`) and initialized for the creator `a[2]`.
pub open spec fn store_stage(program_id: Seq<u8>, a: Seq<AccountInfoView>, c: Seq<NewAccountView>, bump: u8) -> Result<
    (StoreView, Seq<AccountInfoView>, Seq<NewAccountView>),
    ProgramError,
> {
    match store_unpack(a[1].data) {
        Ok(s) => Ok((s, a, c)),
        Err(_) => match store_unpack_unchecked(zeros(MAX_STORE_LEN as nat)) {
            Ok(s) => Ok(
                (
                    store_init_view(s, a[2].key),
                    created(a, 1, MAX_STORE_LEN as nat, program_id),
                    c.push(NewAccountView { index: 1, size: MAX_STORE_LEN, seeds: store_seeds(program_id, a[2].key, bump) }),
                ),
            ),
            Err(e) => Err(e),
        },
    }
}

/// The seeds that sign for the store of `creator`.
fn store_signer_seeds(program_id: &Pubkey, creator: &Pubkey, bump: u8) -> (r: Vec<Vec<u8>>)
    ensures
        seeds_view(r@) == store_seeds(program_id@, creator@, bump),
{
    let mut seeds = prefixed(program_id);
    push_seed(&mut seeds, creator.0.as_slice());
    push_seed(&mut seeds, Store::PREFIX.as_bytes());
    let b = [bump];
    assert(b@ =~= seq![bump]);
    push_seed(&mut seeds, b.as_slice());
    assert(seeds_view(seeds@) =~= store_seeds(program_id@, creator@, bump));
    seeds
}

/// Opens the store of the creator `accounts[2]` in `accounts[1]`: reads it where it is
/// initialized, else creates and initializes it.
pub fn get_pass_store_data(
    program_id: &Pubkey,
    accounts: &mut Vec<AccountInfo>,
    new_accounts: &mut Vec<NewAccount>,
    bump: u8,
) -> (r: Result<Store, ProgramError>)
    requires
        old(accounts)@.len() >= 8,
    ensures
        final(accounts)@.len() == old(accounts)@.len(),
        match store_stage(program_id@, accounts_view(old(accounts)@), new_accounts_view(old(new_accounts)@), bump) {
            Ok((s, a, c)) => r matches Ok(x) && x@ == s && accounts_view(final(accounts)@) == a
                && new_accounts_view(final(new_accounts)@) == c,
            Err(e) => r == Err::<Store, ProgramError>(e),
        },
{
    match Store::unpack(accounts[1].data.as_slice()) {
        Ok(s) => Ok(s),
        Err(_) => {
            let creator = accounts[2].key;
            let seeds = store_signer_seeds(program_id, &creator, bump);
            create_account(accounts, new_accounts, 1, MAX_STORE_LEN, program_id, seeds);
            assert(accounts_view(accounts@)[1] == accounts@[1]@);
            let mut data = Store::unpack_unchecked(accounts[1].data.as_slice())?;
            data.init(creator);
            Ok(data)
        },
    }
}

/// How the pass book in `a[0]` is opened: read where it is initialized, else created.
pub open spec fn pass_book_stage(program_id: Seq<u8>, a: Seq<AccountInfoView>, c: Seq<NewAccountView>) -> Result<
    (PassBookView, Seq<AccountInfoView>, Seq<NewAccountView>),
    ProgramError,
> {
    match pass_book_unpack(a[0].data) {
        Ok(p) => Ok((p, a, c)),
        Err(_) => match pass_book_unpack_unchecked(zeros(MAX_PASS_BOOK_LEN as nat)) {
            Ok(p) => Ok(
                (
                    p,
                    created(a, 0, MAX_PASS_BOOK_LEN as nat, program_id),
                    c.push(NewAccountView { index: 0, size: MAX_PASS_BOOK_LEN, seeds: seq![] }),
                ),
            ),
            Err(e) => Err(e),
        },
    }
}

/// Opens the pass book in `accounts[0]`: reads it where it is initialized, else creates
/// it; the account signs for itself.
pub fn get_or_create_passbook(
    program_id: &Pubkey,
    accounts: &mut Vec<AccountInfo>,
    new_accounts: &mut Vec<NewAccount>,
) -> (r: Result<PassBook, ProgramError>)
    requires
        old(accounts)@.len() >= 8,
    ensures
        final(accounts)@.len() == old(accounts)@.len(),
        match pass_book_stage(program_id@, accounts_view(old(accounts)@), new_accounts_view(old(new_accounts)@)) {
            Ok((p, a, c)) => r matches Ok(x) && x@ == p && accounts_view(final(accounts)@) == a
                && new_accounts_view(final(new_accounts)@) == c,
            Err(e) => r == Err::<PassBook, ProgramError>(e),
        },
{
    match PassBook::unpack(accounts[0].data.as_slice()) {
        Ok(p) => Ok(p),
        Err(_) => {
            let seeds: Vec<Vec<u8>> = Vec::new();
            assert(seeds_view(seeds@) =~= seq![]);
            create_account(accounts, new_accounts, 0, MAX_PASS_BOOK_LEN, program_id, seeds);
            assert(accounts_view(accounts@)[0] == accounts@[0]@);
            PassBook::unpack_unchecked(accounts[0].data.as_slice())
        },
    }
}

/// The treasury `a[i + 1]` of a new payout account at `key`: for native SOL the payout
/// account itself, else the associated token account of the payout account for the
/// mint, which must be initialized.
pub open spec fn treasury_check(a: Seq<AccountInfoView>, i: int, key: Seq<u8>) -> Option<Result<(), ProgramError>> {
    if a[4].key == native_mint_id_bytes() {
        if a[i + 1].key != a[i].key {
            Some(Err(ProgramError::InvalidAccountData))
        } else {
            Some(Ok(()))
        }
    } else {
        match token_address(key, a[4].key) {
            None => None,
            Some((t, _)) => if t != a[i + 1].key {
                Some(Err(program_error_of(NFTPassError::InvalidPayerTokenAccount)))
            } else {
                match initialized_token_account(a[i + 1].data) {
                    Ok(_) => Some(Ok(())),
                    Err(e) => Some(Err(e)),
                }
            },
        }
    }
}

/// A payout account initialized for `authority`, `mint` and `treasury`.
pub open spec fn payout_init_view(p: PayoutView, authority: Seq<u8>, mint: Seq<u8>, treasury: Seq<u8>) -> PayoutView {
    PayoutView { account_type: AccountType::Payout, authority, mint, treasury_holder: treasury, ..p }
}

/// How the payout account `a[i]` of `authority`, with its treasury `a[i + 1]`, is
/// opened: it must be at its derived address; where it is not initialized the treasury
/// is checked and the account created, initialized and written.
pub open spec fn payout_stage(
    program_id: Seq<u8>,
    a: Seq<AccountInfoView>,
    c: Seq<NewAccountView>,
    authority: Seq<u8>,
    i: int,
) -> Option<Result<(Seq<AccountInfoView>, Seq<NewAccountView>), ProgramError>> {
    if i + 2 > a.len() {
        Some(Err(ProgramError::NotEnoughAccountKeys))
    } else {
        match payout_address(program_id, authority, a[4].key) {
            None => None,
            Some((key, bump)) => if a[i].key != key {
                Some(Err(program_error_of(NFTPassError::InvalidPayoutKey)))
            } else {
                match payout_unpack(a[i].data) {
                    Ok(_) => Some(Ok((a, c))),
                    Err(_) => match treasury_check(a, i, key) {
                        None => None,
                        Some(Err(e)) => Some(Err(e)),
                        Some(Ok(())) => match payout_unpack_unchecked(zeros(MAX_PAYOUT_LEN as nat)) {
                            Err(e) => Some(Err(e)),
                            Ok(p) => {
                                let q = payout_init_view(p, authority, a[4].key, a[i + 1].key);
                                let b = created(a, i, MAX_PAYOUT_LEN as nat, program_id);
                                Some(
                                    Ok(
                                        (
                                            with_data(b, i, payout_bytes(q) + zeros(MAX_PAYOUT_LEN as nat).skip(payout_bytes(q).len() as int)),
                                            c.push(
                                                NewAccountView {
                                                    index: i as usize,
                                                    size: MAX_PAYOUT_LEN,
                                                    seeds: payout_seeds(program_id, authority, a[4].key, bump),
                                                },
                                            ),
                                        ),
                                    ),
                                )
                            },
                        },
                    },
                }
            },
        }
    }
}

/// Whether `mint` is the mint of wrapped native SOL.
pub fn is_native_mint(mint: &Pubkey) -> (r: bool)
    ensures
        r == (mint@ == native_mint_id_bytes()),
{
    cmp_pubkeys(mint, &native_mint_id())
}

/// The seeds that sign for the payout account of `authority` for `mint`.
fn payout_signer_seeds(program_id: &Pubkey, authority: &Pubkey, mint: &Pubkey, bump: u8) -> (r: Vec<Vec<u8>>)
    ensures
        seeds_view(r@) == payout_seeds(program_id@, authority@, mint@, bump),
{
    let mut seeds = prefixed(program_id);
    push_seed(&mut seeds, authority.0.as_slice());
    push_seed(&mut seeds, mint.0.as_slice());
    push_seed(&mut seeds, Payout::PREFIX.as_bytes());
    let b = [bump];
    assert(b@ =~= seq![bump]);
    push_seed(&mut seeds, b.as_slice());
    assert(seeds_view(seeds@) =~= payout_seeds(program_id@, authority@, mint@, bump));
    seeds
}

/// Opens the payout account `accounts[index]` of `authority` for payments in the mint
/// `accounts[4]`, with its treasury `accounts[index + 1]`; creates it where it is not
/// initialized.
pub fn get_or_create_payout_account(
    program_id: &Pubkey,
    authority: &Pubkey,
    index: usize,
    accounts: &mut Vec<AccountInfo>,
    new_accounts: &mut Vec<NewAccount>,
) -> (r: Option<Result<(), ProgramError>>)
    requires
        old(accounts)@.len() >= 8,
        index < usize::MAX - 2,
    ensures
        final(accounts)@.len() == old(accounts)@.len(),
        step_done(
            r,
            accounts_view(final(accounts)@),
            new_accounts_view(final(new_accounts)@),
            payout_stage(program_id@, accounts_view(old(accounts)@), new_accounts_view(old(new_accounts)@), authority@, index as int),
        ),
{
    if index + 2 > accounts.len() {
        return Some(Err(ProgramError::NotEnoughAccountKeys));
    }
    let mint = accounts[4].key;
    let (payout_key, bump) = match find_payout_program_address(program_id, authority, &mint) {
        Some(x) => x,
        None => return None,
    };
    if let Err(e) = assert_account_key(&accounts[index], &payout_key, Some(NFTPassError::InvalidPayoutKey)) {
        return Some(Err(e));
    }
    match Payout::unpack(accounts[index].data.as_slice()) {
        Ok(_) => Some(Ok(())),
        Err(_) => {
            let is_native = is_native_mint(&mint);
            if is_native {
                if accounts[index + 1].key != accounts[index].key {
                    return Some(Err(ProgramError::InvalidAccountData));
                }
            } else {
                let ata = match associated_token_address(&payout_key, &mint) {
                    Some(k) => k,
                    None => return None,
                };
                if ata != accounts[index + 1].key {
                    return Some(Err(fail(NFTPassError::InvalidPayerTokenAccount)));
                }
                if let Err(e) = assert_initialized(&accounts[index + 1]) {
                    return Some(Err(e));
                }
            }
            let treasury = accounts[index + 1].key;
            let seeds = payout_signer_seeds(program_id, authority, &mint, bump);
            create_account(accounts, new_accounts, index, MAX_PAYOUT_LEN, program_id, seeds);
            assert(accounts_view(accounts@)[index as int] == accounts@[index as int]@);
            let mut data = match Payout::unpack_unchecked(accounts[index].data.as_slice()) {
                Ok(d) => d,
                Err(e) => return Some(Err(e)),
            };
            data.init(*authority, mint, treasury);
            let mut bytes = copy_bytes(&accounts[index].data);
            proof {
                lemma_payout_bytes_len(data@);
            }
            if let Err(e) = Payout::pack(data, bytes.as_mut_slice()) {
                return Some(Err(e));
            }
            set_data(accounts, index, bytes);
            Some(Ok(()))
        },
    }
}

/// The checks on the arguments: the name and the URI must fit their greatest lengths in
/// bytes, and the number of uses, the validity and the supply, where given, must not be
/// zero.
pub open spec fn init_args_check(args: InitPassBookArgsView) -> Result<(), ProgramError> {
    if text_bytes(args.name).len() > MAX_NAME_LENGTH {
        Err(program_error_of(NFTPassError::NameTooLong))
    } else if text_bytes(args.uri).len() > MAX_URI_LENGTH {
        Err(program_error_of(NFTPassError::UriTooLong))
    } else if args.max_uses == Some(0u64) {
        Err(program_error_of(NFTPassError::WrongDuration))
    } else if args.access == Some(0u64) {
        Err(program_error_of(NFTPassError::WrongValidityPeriod))
    } else if args.max_supply == Some(0u64) {
        Err(program_error_of(NFTPassError::WrongMaxSupply))
    } else {
        Ok(())
    }
}

/// Checks the arguments of a new pass book.
pub fn check_init_args(args: &InitPassBookArgs) -> (r: Result<(), ProgramError>)
    ensures
        r == init_args_check(args@),
{
    if args.name.as_str().as_bytes().len() > MAX_NAME_LENGTH {
        return Err(fail(NFTPassError::NameTooLong));
    }
    if args.uri.as_str().as_bytes().len() > MAX_URI_LENGTH {
        return Err(fail(NFTPassError::UriTooLong));
    }
    if let Some(max_uses) = args.max_uses {
        if max_uses == 0 {
            return Err(fail(NFTPassError::WrongDuration));
        }
    }
    if let Some(validity) = args.access {
        if validity == 0 {
            return Err(fail(NFTPassError::WrongValidityPeriod));
        }
    }
    if let Some(max_supply) = args.max_supply {
        if max_supply == 0 {
            return Err(fail(NFTPassError::WrongMaxSupply));
        }
    }
    Ok(())
}

/// How the market authority `a[i]`, where the arguments name one, is read: it must sign,
/// and its payout account `a[i + 1]` is opened. Gives the market authority and where the
/// accounts that follow start.
pub open spec fn market_stage(
    program_id: Seq<u8>,
    a: Seq<AccountInfoView>,
    c: Seq<NewAccountView>,
    has_market_authority: bool,
    i: int,
) -> Option<Result<(Option<Seq<u8>>, Seq<AccountInfoView>, Seq<NewAccountView>, int), ProgramError>> {
    if !has_market_authority {
        Some(Ok((None, a, c, i)))
    } else if i >= a.len() {
        Some(Err(ProgramError::NotEnoughAccountKeys))
    } else if !a[i].is_signer {
        Some(Err(ProgramError::MissingRequiredSignature))
    } else {
        match payout_stage(program_id, a, c, a[i].key, i + 1) {
            None => None,
            Some(Err(e)) => Some(Err(e)),
            Some(Ok((b, d))) => Some(Ok((Some(a[i].key), b, d, i + 3))),
        }
    }
}

/// How the referrer `a[i]`, where the arguments name one, is read: its payout account
/// `a[i + 1]` is opened, and the store records it with the end of the referral.
pub open spec fn referrer_stage(
    program_id: Seq<u8>,
    a: Seq<AccountInfoView>,
    c: Seq<NewAccountView>,
    store: StoreView,
    has_referrer: bool,
    referral_end_date: Option<u64>,
    i: int,
) -> Option<Result<(StoreView, Seq<AccountInfoView>, Seq<NewAccountView>), ProgramError>> {
    if !has_referrer {
        Some(Ok((store, a, c)))
    } else if i >= a.len() {
        Some(Err(ProgramError::NotEnoughAccountKeys))
    } else {
        match payout_stage(program_id, a, c, a[i].key, i + 1) {
            None => None,
            Some(Err(e)) => Some(Err(e)),
            Some(Ok((b, d))) => Some(
                Ok((StoreView { referrer: Some(a[i].key), referral_end_date, ..store }, b, d)),
            ),
        }
    }
}

/// The new pass book: the pass book read or created, initialized from the arguments, for
/// `creator`, priced in `mint`, created at `now`, with the market authority as its gate
/// keeper.
pub open spec fn new_pass_book(
    p: PassBookView,
    args: InitPassBookArgsView,
    creator: Seq<u8>,
    mint: Seq<u8>,
    now: i64,
    gate_keeper: Option<Seq<u8>>,
) -> PassBookView {
    PassBookView {
        account_type: AccountType::PassBook,
        pass_state: PassBookState::NotActivated,
        name: args.name,
        description: args.description,
        uri: args.uri,
        authority: creator,
        mint,
        mutable: args.mutable,
        access: args.access,
        duration: args.max_uses,
        max_supply: args.max_supply,
        blur_hash: None,
        created_at: now as u64,
        price: args.price,
        price_mint: mint,
        gate_keeper,
        ..p
    }
}

/// How the new pass book and the store are written: the description must fit its
/// greatest length, else padding it panics; the pass book is padded and written to
/// `a[0]`, and the store, with one more pass book, to `a[1]`.
pub open spec fn finish_stage(a: Seq<AccountInfoView>, p: PassBookView, store: StoreView) -> Option<
    Result<Seq<AccountInfoView>, ProgramError>,
> {
    if text_bytes(p.description).len() > MAX_DESCRIPTION_LEN {
        None
    } else {
        match packed(a[0].data, pass_book_bytes(puffed_view(p)), MAX_PASS_BOOK_LEN) {
            Err(e) => Some(Err(e)),
            Ok(d0) => if store.pass_book_count == u64::MAX {
                Some(Err(program_error_of(NFTPassError::Overflow)))
            } else {
                let s = StoreView { pass_book_count: (store.pass_book_count + 1) as u64, ..store };
                match packed(a[1].data, store_bytes(s), MAX_STORE_LEN) {
                    Err(e) => Some(Err(e)),
                    Ok(d1) => Some(Ok(with_data(with_data(a, 0, d0), 1, d1))),
                }
            },
        }
    }
}

/// A padded pass book whose name, URI and gate keeper fit their greatest lengths fits
/// the format and the account.
proof fn lemma_new_pass_book_fits(v: PassBookView)
    requires
        v.authority.len() == 32,
        v.mint.len() == 32,
        v.price_mint.len() == 32,
        text_bytes(v.name).len() <= MAX_NAME_LENGTH,
        text_bytes(v.uri).len() <= MAX_URI_LENGTH,
        text_bytes(v.description).len() <= MAX_DESCRIPTION_LEN,
        v.blur_hash is None,
        v.gate_keeper matches Some(k) ==> k.len() == 32,
    ensures
        pass_book_ok(puffed_view(v)),
        pass_book_bytes(puffed_view(v)).len() <= MAX_PASS_BOOK_LEN,
{
    lemma_puffed_len(v.uri, MAX_URI_LENGTH);
    lemma_puffed_len(v.description, MAX_DESCRIPTION_LEN);
    let w = puffed_view(v);
    lemma_pass_book_bytes_len(w);
    assert(opt_u64_bytes_len_le(w.access));
    assert(opt_u64_bytes_len_le(w.duration));
    assert(opt_u64_bytes_len_le(w.max_supply));
}

/// The encoding of an optional `u64` takes at most 9 bytes.
spec fn opt_u64_bytes_len_le(o: Option<u64>) -> bool {
    crate::codec::opt_u64_bytes(o).len() <= 9
}

/// Writes the new pass book and the store.
fn finish(accounts: &mut Vec<AccountInfo>, pass_book: PassBook, store: Store) -> (r: Option<Result<(), ProgramError>>)
    requires
        old(accounts)@.len() >= 8,
        pass_book@.authority.len() == 32,
        text_bytes(pass_book@.name).len() <= MAX_NAME_LENGTH,
        text_bytes(pass_book@.uri).len() <= MAX_URI_LENGTH,
        pass_book@.blur_hash is None,
        store@.authority.len() == 32,
        store@.referrer matches Some(k) ==> k.len() == 32,
    ensures
        match finish_stage(accounts_view(old(accounts)@), pass_book@, store@) {
            None => r is None,
            Some(Err(e)) => r == Some(Err::<(), ProgramError>(e)),
            Some(Ok(a)) => r == Some(Ok::<(), ProgramError>(())) && accounts_view(final(accounts)@) == a,
        },
{
    let mut pass_book = pass_book;
    let mut store = store;
    if pass_book.description.as_str().as_bytes().len() > MAX_DESCRIPTION_LEN {
        return None;
    }
    let ghost before = pass_book@;
    pass_book.puff_out_data_fields();
    proof {
        lemma_new_pass_book_fits(before);
    }
    let mut data = copy_bytes(&accounts[0].data);
    if let Err(e) = PassBook::pack(pass_book, data.as_mut_slice()) {
        return Some(Err(e));
    }
    if let Err(e) = store.increment_pass_book_count() {
        return Some(Err(e));
    }
    let mut store_data = copy_bytes(&accounts[1].data);
    proof {
        lemma_store_bytes_len(store@);
    }
    if let Err(e) = Store::pack(store, store_data.as_mut_slice()) {
        return Some(Err(e));
    }
    set_data(accounts, 0, data);
    set_data(accounts, 1, store_data);
    Some(Ok(()))
}

/// Reads the market authority `accounts[index]`, where there is one, and opens its payout
/// account; gives it with the place of the accounts that follow.
fn open_market_authority(
    program_id: &Pubkey,
    has_market_authority: bool,
    index: usize,
    accounts: &mut Vec<AccountInfo>,
    new_accounts: &mut Vec<NewAccount>,
) -> (r: Option<Result<(Option<Pubkey>, usize), ProgramError>>)
    requires
        old(accounts)@.len() >= 8,
        index < usize::MAX - 8,
    ensures
        final(accounts)@.len() == old(accounts)@.len(),
        match market_stage(program_id@, accounts_view(old(accounts)@), new_accounts_view(old(new_accounts)@), has_market_authority, index as int) {
            None => r is None,
            Some(Err(e)) => r == Some(Err::<(Option<Pubkey>, usize), ProgramError>(e)),
            Some(Ok((g, a, c, j))) => r matches Some(Ok((x, k))) && opt_key_view(x) == g && k == j
                && accounts_view(final(accounts)@) == a && new_accounts_view(final(new_accounts)@) == c,
        },
{
    if !has_market_authority {
        return Some(Ok((None, index)));
    }
    if index >= accounts.len() {
        return Some(Err(ProgramError::NotEnoughAccountKeys));
    }
    if let Err(e) = assert_signer(&accounts[index]) {
        return Some(Err(e));
    }
    let market_authority = accounts[index].key;
    match get_or_create_payout_account(program_id, &market_authority, index + 1, accounts, new_accounts) {
        None => None,
        Some(Err(e)) => Some(Err(e)),
        Some(Ok(())) => Some(Ok((Some(market_authority), index + 3))),
    }
}

/// Reads the referrer `accounts[index]`, where there is one, opens its payout account and
/// records it in the store with the end of the referral.
fn open_referrer(
    program_id: &Pubkey,
    store: &mut Store,
    has_referrer: bool,
    referral_end_date: Option<u64>,
    index: usize,
    accounts: &mut Vec<AccountInfo>,
    new_accounts: &mut Vec<NewAccount>,
) -> (r: Option<Result<(), ProgramError>>)
    requires
        old(accounts)@.len() >= 8,
        index < usize::MAX - 8,
    ensures
        final(accounts)@.len() == old(accounts)@.len(),
        match referrer_stage(
            program_id@,
            accounts_view(old(accounts)@),
            new_accounts_view(old(new_accounts)@),
            old(store)@,
            has_referrer,
            referral_end_date,
            index as int,
        ) {
            None => r is None,
            Some(Err(e)) => r == Some(Err::<(), ProgramError>(e)),
            Some(Ok((s, a, c))) => r == Some(Ok::<(), ProgramError>(())) && final(store)@ == s
                && accounts_view(final(accounts)@) == a && new_accounts_view(final(new_accounts)@) == c,
        },
{
    if !has_referrer {
        return Some(Ok(()));
    }
    if index >= accounts.len() {
        return Some(Err(ProgramError::NotEnoughAccountKeys));
    }
    let referrer = accounts[index].key;
    match get_or_create_payout_account(program_id, &referrer, index + 1, accounts, new_accounts) {
        None => None,
        Some(Err(e)) => Some(Err(e)),
        Some(Ok(())) => {
            store.referrer = Some(referrer);
            store.referral_end_date = referral_end_date;
            Some(Ok(()))
        },
    }
}

/// What the instruction does once the pass book is open and the arguments checked: the
/// payout account of the creator, the market authority and the referrer are opened, then
/// the pass book and the store written.
pub open spec fn init_after_checks(
    program_id: Seq<u8>,
    a: Seq<AccountInfoView>,
    c: Seq<NewAccountView>,
    store: StoreView,
    p: PassBookView,
    args: InitPassBookArgsView,
    now: i64,
) -> Option<Result<(Seq<AccountInfoView>, Seq<NewAccountView>), ProgramError>> {
    match payout_stage(program_id, a, c, a[2].key, 8) {
        None => None,
        Some(Err(e)) => Some(Err(e)),
        Some(Ok((a3, c3))) => match market_stage(program_id, a3, c3, args.has_market_authority, 10) {
            None => None,
            Some(Err(e)) => Some(Err(e)),
            Some(Ok((gate_keeper, a4, c4, i))) => match referrer_stage(
                program_id,
                a4,
                c4,
                store,
                args.has_referrer,
                args.referral_end_date,
                i,
            ) {
                None => None,
                Some(Err(e)) => Some(Err(e)),
                Some(Ok((s, a5, c5))) => match finish_stage(
                    a5,
                    new_pass_book(p, args, a[2].key, a[4].key, now, gate_keeper),
                    s,
                ) {
                    None => None,
                    Some(Err(e)) => Some(Err(e)),
                    Some(Ok(a6)) => Some(Ok((a6, c5))),
                },
            },
        },
    }
}

/// What the instruction does once the store is open: the pass book is opened and must
/// not be initialized, and the arguments are checked.
pub open spec fn init_after_store(
    program_id: Seq<u8>,
    a: Seq<AccountInfoView>,
    c: Seq<NewAccountView>,
    store: StoreView,
    args: InitPassBookArgsView,
    now: i64,
) -> Option<Result<(Seq<AccountInfoView>, Seq<NewAccountView>), ProgramError>> {
    match pass_book_stage(program_id, a, c) {
        Err(e) => Some(Err(e)),
        Ok((p, a2, c2)) => if p.account_type == AccountType::PassBook {
            Some(Err(ProgramError::AccountAlreadyInitialized))
        } else {
            match init_args_check(args) {
                Err(e) => Some(Err(e)),
                Ok(()) => init_after_checks(program_id, a2, c2, store, p, args, now),
            }
        },
    }
}

/// What the instruction does: the pass book and the creator must sign; a price mint other
/// than native SOL must belong to the token program; the store must be at the creator's
/// derived address and, once open, belong to the creator; the rest follows
/// `init_after_store`. `None` where the program panics.
pub open spec fn init_outcome(program_id: Seq<u8>, a: Seq<AccountInfoView>, args: InitPassBookArgsView, now: i64) -> Option<
    Result<(Seq<AccountInfoView>, Seq<NewAccountView>), ProgramError>,
> {
    if a.len() < 8 {
        Some(Err(ProgramError::NotEnoughAccountKeys))
    } else if !a[0].is_signer || !a[2].is_signer {
        Some(Err(ProgramError::MissingRequiredSignature))
    } else if a[4].key != native_mint_id_bytes() && a[4].owner != token_program_id_bytes() {
        Some(Err(ProgramError::IllegalOwner))
    } else {
        match store_address(program_id, a[2].key) {
            None => None,
            Some((key, bump)) => if a[1].key != key {
                Some(Err(program_error_of(NFTPassError::InvalidStoreKey)))
            } else {
                match store_stage(program_id, a, seq![], bump) {
                    Err(e) => Some(Err(e)),
                    Ok((s, a1, c1)) => if a[2].key != s.authority {
                        Some(Err(program_error_of(NFTPassError::InvalidCreatorKey)))
                    } else {
                        init_after_store(program_id, a1, c1, s, args, now)
                    },
                }
            },
        }
    }
}

/// The steps after the arguments are checked.
fn init_rest(
    program_id: &Pubkey,
    accounts: &mut Vec<AccountInfo>,
    new_accounts: &mut Vec<NewAccount>,
    store: Store,
    pass_book: PassBook,
    args: InitPassBookArgs,
    unix_timestamp: i64,
) -> (r: Option<Result<(), ProgramError>>)
    requires
        old(accounts)@.len() >= 8,
        store@.authority.len() == 32,
        store@.referrer matches Some(k) ==> k.len() == 32,
        init_args_check(args@) is Ok,
    ensures
        step_done(
            r,
            accounts_view(final(accounts)@),
            new_accounts_view(final(new_accounts)@),
            init_after_checks(program_id@, accounts_view(old(accounts)@), new_accounts_view(old(new_accounts)@), store@, pass_book@, args@, unix_timestamp),
        ),
{
    let mut store = store;
    let mut pass_book = pass_book;
    let creator = accounts[2].key;
    let mint = accounts[4].key;
    match get_or_create_payout_account(program_id, &creator, 8, accounts, new_accounts) {
        None => return None,
        Some(Err(e)) => return Some(Err(e)),
        Some(Ok(())) => {},
    }
    let (gate_keeper, next) = match open_market_authority(program_id, args.has_market_authority, 10, accounts, new_accounts) {
        None => return None,
        Some(Err(e)) => return Some(Err(e)),
        Some(Ok(x)) => x,
    };
    match open_referrer(program_id, &mut store, args.has_referrer, args.referral_end_date, next, accounts, new_accounts) {
        None => return None,
        Some(Err(e)) => return Some(Err(e)),
        Some(Ok(())) => {},
    }
    pass_book.init(
        InitPassBook {
            name: args.name,
            description: args.description,
            uri: args.uri,
            authority: creator,
            mint,
            mutable: args.mutable,
            access: args.access,
            duration: args.max_uses,
            max_supply: args.max_supply,
            blur_hash: None,
            created_at: unix_timestamp as u64,
            price: args.price,
            price_mint: mint,
            gate_keeper,
        },
    );
    finish(accounts, pass_book, store)
}

/// The steps up to the checks of the arguments.
fn init_steps(
    program_id: &Pubkey,
    accounts: &mut Vec<AccountInfo>,
    new_accounts: &mut Vec<NewAccount>,
    args: InitPassBookArgs,
    unix_timestamp: i64,
) -> (r: Option<Result<(), ProgramError>>)
    requires
        old(new_accounts)@.len() == 0,
    ensures
        step_done(
            r,
            accounts_view(final(accounts)@),
            new_accounts_view(final(new_accounts)@),
            init_outcome(program_id@, accounts_view(old(accounts)@), args@, unix_timestamp),
        ),
{
    assert(new_accounts_view(new_accounts@) =~= seq![]);
    if accounts.len() < 8 {
        return Some(Err(ProgramError::NotEnoughAccountKeys));
    }
    if let Err(e) = assert_signer(&accounts[0]) {
        return Some(Err(e));
    }
    if let Err(e) = assert_signer(&accounts[2]) {
        return Some(Err(e));
    }
    let mint = accounts[4].key;
    if !is_native_mint(&mint) {
        if let Err(e) = assert_owned_by(&accounts[4], &token_program_id()) {
            return Some(Err(e));
        }
    }
    let creator = accounts[2].key;
    let (store_key, bump) = match find_pass_store_program_address(program_id, &creator) {
        Some(x) => x,
        None => return None,
    };
    if let Err(e) = assert_account_key(&accounts[1], &store_key, Some(NFTPassError::InvalidStoreKey)) {
        return Some(Err(e));
    }
    let store = match get_pass_store_data(program_id, accounts, new_accounts, bump) {
        Ok(s) => s,
        Err(e) => return Some(Err(e)),
    };
    assert(accounts_view(accounts@)[2] == accounts@[2]@);
    if let Err(e) = assert_account_key(&accounts[2], &store.authority, Some(NFTPassError::InvalidCreatorKey)) {
        return Some(Err(e));
    }
    let pass_book = match get_or_create_passbook(program_id, accounts, new_accounts) {
        Ok(p) => p,
        Err(e) => return Some(Err(e)),
    };
    if pass_book.is_initialized() {
        return Some(Err(ProgramError::AccountAlreadyInitialized));
    }
    if let Err(e) = check_init_args(&args) {
        return Some(Err(e));
    }
    init_rest(program_id, accounts, new_accounts, store, pass_book, args, unix_timestamp)
}

/// Process InitPassBook instruction: works out what creating a pass book does to
/// `accounts`, given the clock's `unix_timestamp`, and gives the accounts to create
/// first. `None` where the program panics: no address can be derived for a seed, or
/// the description is longer than it can be padded to. On an error nothing changes.
pub fn init_pass_book(
    program_id: &Pubkey,
    accounts: &mut Vec<AccountInfo>,
    args: InitPassBookArgs,
    unix_timestamp: i64,
) -> (r: Option<Result<Vec<NewAccount>, ProgramError>>)
    ensures
        match init_outcome(program_id@, accounts_view(old(accounts)@), args@, unix_timestamp) {
            None => r is None && final(accounts)@ == old(accounts)@,
            Some(Err(e)) => r matches Some(Err(x)) && x == e && final(accounts)@ == old(accounts)@,
            Some(Ok((a, c))) => r matches Some(Ok(n)) && new_accounts_view(n@) == c && accounts_view(final(accounts)@) == a,
        },
{
    let mut work = copy_accounts(accounts);
    let mut new_accounts: Vec<NewAccount> = Vec::new();
    match init_steps(program_id, &mut work, &mut new_accounts, args, unix_timestamp) {
        None => None,
        Some(Err(e)) => Some(Err(e)),
        Some(Ok(())) => {
            *accounts = work;
            Some(Ok(new_accounts))
        },
    }
}

/// `b` holds the same accounts as `a`, at the same addresses.
pub open spec fn same_keys(b: Seq<AccountInfoView>, a: Seq<AccountInfoView>) -> bool {
    &&& b.len() == a.len()
    &&& forall|k: int| 0 <= k < a.len() ==> #[trigger] b[k].key == a[k].key
}

/// Opening a payout account changes no account's address.
proof fn lemma_payout_stage_keeps_keys(
    program_id: Seq<u8>,
    a: Seq<AccountInfoView>,
    c: Seq<NewAccountView>,
    authority: Seq<u8>,
    i: int,
)
    requires
        payout_stage(program_id, a, c, authority, i) matches Some(Ok(_)),
        0 <= i,
    ensures
        same_keys(payout_stage(program_id, a, c, authority, i)->Some_0->Ok_0.0, a),
{
    let b = payout_stage(program_id, a, c, authority, i)->Some_0->Ok_0.0;
    assert forall|k: int| 0 <= k < a.len() implies #[trigger] b[k].key == a[k].key by {
    }
}

/// Every account of the list has an address of 32 bytes.
proof fn lemma_keys_of_accounts(accounts: Seq<AccountInfo>)
    ensures
        forall|k: int| 0 <= k < accounts.len() ==> (#[trigger] accounts_view(accounts)[k]).key.len() == 32,
{
    assert forall|k: int| 0 <= k < accounts.len() implies (#[trigger] accounts_view(accounts)[k]).key.len() == 32 by {
        assert(accounts_view(accounts)[k] == accounts[k]@);
    }
}

/// A pass book that `init_pass_book` creates reads back with what the arguments give: its
/// name, its URI and description padded, mutability, validity, number of uses, maximum
/// supply and price; the creator `accounts[2]` as its authority; the mint `accounts[4]`
/// as its mint and price mint; the time of creation; the market authority
/// `accounts[10]`, where the arguments name one, as its gate keeper; not yet activated.
pub proof fn lemma_init_pass_book_takes_the_arguments(
    program_id: Seq<u8>,
    accounts: Seq<AccountInfo>,
    args: InitPassBookArgsView,
    now: i64,
)
    requires
        init_outcome(program_id, accounts_view(accounts), args, now) matches Some(Ok(_)),
    ensures
        pass_book_unpack(init_outcome(program_id, accounts_view(accounts), args, now)->Some_0->Ok_0.0[0].data) matches Ok(p)
            && p.account_type == AccountType::PassBook
            && p.pass_state == PassBookState::NotActivated
            && p.name == args.name
            && p.uri == puffed(args.uri, MAX_URI_LENGTH)
            && p.description == puffed(args.description, MAX_DESCRIPTION_LEN)
            && p.mutable == args.mutable
            && p.access == args.access
            && p.duration == args.max_uses
            && p.max_supply == args.max_supply
            && p.price == args.price
            && p.authority == accounts[2].key@
            && p.mint == accounts[4].key@
            && p.price_mint == accounts[4].key@
            && p.created_at == now as u64
            && p.blur_hash is None
            && p.gate_keeper == (if args.has_market_authority { Some(accounts[10].key@) } else { None }),
{
    let a = accounts_view(accounts);
    lemma_keys_of_accounts(accounts);
    assert(a[2] == accounts[2]@ && a[4] == accounts[4]@);
    let (store_key, bump) = store_address(program_id, a[2].key)->Some_0;
    let (s, a1, c1) = store_stage(program_id, a, seq![], bump)->Ok_0;
    assert(same_keys(a1, a));
    let (p, a2, c2) = pass_book_stage(program_id, a1, c1)->Ok_0;
    assert(same_keys(a2, a));
    lemma_payout_stage_keeps_keys(program_id, a2, c2, a2[2].key, 8);
    let (a3, c3) = payout_stage(program_id, a2, c2, a2[2].key, 8)->Some_0->Ok_0;
    let (g, a4, c4, i) = market_stage(program_id, a3, c3, args.has_market_authority, 10)->Some_0->Ok_0;
    if args.has_market_authority {
        assert(a[10] == accounts[10]@);
        assert(a3[10].key == a[10].key);
    }
    let (s5, a5, c5) = referrer_stage(program_id, a4, c4, s, args.has_referrer, args.referral_end_date, i)->Some_0->Ok_0;
    let np = new_pass_book(p, args, a2[2].key, a2[4].key, now, g);
    lemma_new_pass_book_fits(np);
    let v = puffed_view(np);
    lemma_pass_book_unpack_packed(v, a5[0].data.skip(pass_book_bytes(v).len() as int));
}

/// What creating a pass book writes reads back: the new pass book, padded, in account 0,
/// and the store, with one more pass book, in account 1.
pub proof fn lemma_init_writes_read_back(a: Seq<AccountInfoView>, p: PassBookView, store: StoreView)
    requires
        a.len() >= 2,
        finish_stage(a, p, store) matches Some(Ok(_)),
        p.account_type == AccountType::PassBook,
        p.authority.len() == 32,
        p.mint.len() == 32,
        p.price_mint.len() == 32,
        text_bytes(p.name).len() <= MAX_NAME_LENGTH,
        text_bytes(p.uri).len() <= MAX_URI_LENGTH,
        p.blur_hash is None,
        p.gate_keeper matches Some(k) ==> k.len() == 32,
        store_ok(store),
        store.account_type == AccountType::Store,
    ensures
        pass_book_unpack(finish_stage(a, p, store)->Some_0->Ok_0[0].data) == Ok::<PassBookView, ProgramError>(
            puffed_view(p),
        ),
        store_unpack(finish_stage(a, p, store)->Some_0->Ok_0[1].data) == Ok::<StoreView, ProgramError>(
            StoreView { pass_book_count: (store.pass_book_count + 1) as u64, ..store },
        ),
{
    lemma_new_pass_book_fits(p);
    let v = puffed_view(p);
    lemma_pass_book_unpack_packed(v, a[0].data.skip(pass_book_bytes(v).len() as int));
    let s = StoreView { pass_book_count: (store.pass_book_count + 1) as u64, ..store };
    lemma_store_bytes_len(s);
    lemma_store_unpack_packed(s, a[1].data.skip(store_bytes(s).len() as int));
}

} // verus!
