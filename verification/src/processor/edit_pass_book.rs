//! Editing of pass books.

use vstd::prelude::*;

use crate::account_info::{AccountInfo, AccountInfoView};
use crate::codec::{opt_string_view, text_bytes};
use crate::error::{fail, program_error_of, NFTPassError, ProgramError};
use crate::instruction::{EditPassBookArgs, EditPassBookArgsView};
use crate::processor::{accounts_view, copy_bytes, repacked, set_data, with_data};
use crate::pubkey::{
    system_program_id, system_program_id_bytes, token_program_id, token_program_id_bytes, Pubkey,
};
use crate::state::pass_book::{
    able_to_edit, lemma_pass_book_rewritten, lemma_pass_book_unpack_inverse, pass_book_bytes,
    pass_book_ok, pass_book_unpack, PassBookView, MAX_PASS_BOOK_LEN,
};
use crate::state::{PassBook, MAX_DESCRIPTION_LEN, MAX_URI_LENGTH};
use crate::text::{lemma_puffed_len, puffed};
use crate::utils::{assert_account_key, assert_owned_by, assert_signer};

verus! {

/// The `CantSetTheSameValue` error.
pub open spec fn same_value() -> ProgramError {
    program_error_of(NFTPassError::CantSetTheSameValue)
}

pub open spec fn change_name(v: PassBookView, n: Option<Seq<char>>) -> Result<PassBookView, ProgramError> {
    match n {
        Some(n) => if n == v.name {
            Err(same_value())
        } else {
            Ok(PassBookView { name: n, ..v })
        },
        None => Ok(v),
    }
}

pub open spec fn change_description(v: PassBookView, d: Option<Seq<char>>) -> Result<PassBookView, ProgramError> {
    match d {
        Some(d) => if d == v.description {
            Err(same_value())
        } else if text_bytes(d).len() > MAX_DESCRIPTION_LEN {
            Err(program_error_of(NFTPassError::DescriptionTooLong))
        } else {
            Ok(PassBookView { description: d, ..v })
        },
        None => Ok(v),
    }
}

pub open spec fn change_uri(v: PassBookView, u: Option<Seq<char>>) -> Result<PassBookView, ProgramError> {
    match u {
        Some(u) => if u == v.uri {
            Err(same_value())
        } else if text_bytes(u).len() > MAX_URI_LENGTH {
            Err(program_error_of(NFTPassError::UriTooLong))
        } else {
            Ok(PassBookView { uri: u, ..v })
        },
        None => Ok(v),
    }
}

pub open spec fn change_mutable(v: PassBookView, m: Option<bool>) -> Result<PassBookView, ProgramError> {
    match m {
        Some(m) => if m == v.mutable {
            Err(same_value())
        } else {
            Ok(PassBookView { mutable: m, ..v })
        },
        None => Ok(v),
    }
}

pub open spec fn change_price(v: PassBookView, p: Option<u64>) -> Result<PassBookView, ProgramError> {
    match p {
        Some(p) => if p == v.price {
            Err(same_value())
        } else {
            Ok(PassBookView { price: p, ..v })
        },
        None => Ok(v),
    }
}

/// A new price mint must differ from the old one and, unless it is the system program
/// (native SOL), be owned by the token program.
pub open spec fn change_price_mint(v: PassBookView, a: Option<AccountInfoView>) -> Result<PassBookView, ProgramError> {
    match a {
        Some(a) => if a.key == v.price_mint {
            Err(same_value())
        } else if a.key != system_program_id_bytes() && a.owner != token_program_id_bytes() {
            Err(ProgramError::IllegalOwner)
        } else {
            Ok(PassBookView { price_mint: a.key, ..v })
        },
        None => Ok(v),
    }
}

/// What `apply_changes` does: the changes apply in order, each must change something, and
/// the first that fails stops with its error, after those before it applied.
pub open spec fn apply_changes_outcome(
    v: PassBookView,
    c: EditPassBookArgsView,
    mint: Option<AccountInfoView>,
) -> (PassBookView, Result<(), ProgramError>) {
    match change_name(v, c.name) {
        Err(e) => (v, Err(e)),
        Ok(v1) => match change_description(v1, c.description) {
            Err(e) => (v1, Err(e)),
            Ok(v2) => match change_uri(v2, c.uri) {
                Err(e) => (v2, Err(e)),
                Ok(v3) => match change_mutable(v3, c.mutable) {
                    Err(e) => (v3, Err(e)),
                    Ok(v4) => match change_price(v4, c.price) {
                        Err(e) => (v4, Err(e)),
                        Ok(v5) => match change_price_mint(v5, mint) {
                            Err(e) => (v5, Err(e)),
                            Ok(v6) => (v6, Ok(())),
                        },
                    },
                },
            },
        },
    }
}

/// The account seen through `View`, where there is one.
pub open spec fn opt_account_view(a: Option<&AccountInfo>) -> Option<AccountInfoView> {
    match a {
        Some(a) => Some(a@),
        None => None,
    }
}

/// A step of an edit: `Ok(w)` leaves the pass book at `w`, an error leaves it as it was.
pub open spec fn step_done(before: PassBookView, after: PassBookView, r: Result<(), ProgramError>, outcome: Result<PassBookView, ProgramError>) -> bool {
    match outcome {
        Ok(w) => r is Ok && after == w,
        Err(e) => r == Err::<(), ProgramError>(e) && after == before,
    }
}

fn set_name(pass_book: &mut PassBook, name: Option<String>) -> (r: Result<(), ProgramError>)
    ensures
        step_done(old(pass_book)@, final(pass_book)@, r, change_name(old(pass_book)@, opt_string_view(name))),
{
    if let Some(new_name) = name {
        if new_name == pass_book.name {
            return Err(fail(NFTPassError::CantSetTheSameValue));
        }
        pass_book.name = new_name;
    }
    Ok(())
}

fn set_description(pass_book: &mut PassBook, description: Option<String>) -> (r: Result<(), ProgramError>)
    ensures
        step_done(old(pass_book)@, final(pass_book)@, r, change_description(old(pass_book)@, opt_string_view(description))),
{
    if let Some(description) = description {
        if description == pass_book.description {
            return Err(fail(NFTPassError::CantSetTheSameValue));
        }
        if description.as_str().as_bytes().len() > MAX_DESCRIPTION_LEN {
            return Err(fail(NFTPassError::DescriptionTooLong));
        }
        pass_book.description = description;
    }
    Ok(())
}

fn set_uri(pass_book: &mut PassBook, uri: Option<String>) -> (r: Result<(), ProgramError>)
    ensures
        step_done(old(pass_book)@, final(pass_book)@, r, change_uri(old(pass_book)@, opt_string_view(uri))),
{
    if let Some(uri) = uri {
        if uri == pass_book.uri {
            return Err(fail(NFTPassError::CantSetTheSameValue));
        }
        if uri.as_str().as_bytes().len() > MAX_URI_LENGTH {
            return Err(fail(NFTPassError::UriTooLong));
        }
        pass_book.uri = uri;
    }
    Ok(())
}

fn set_mutable(pass_book: &mut PassBook, mutable: Option<bool>) -> (r: Result<(), ProgramError>)
    ensures
        step_done(old(pass_book)@, final(pass_book)@, r, change_mutable(old(pass_book)@, mutable)),
{
    if let Some(new_mutable_value) = mutable {
        if new_mutable_value == pass_book.mutable {
            return Err(fail(NFTPassError::CantSetTheSameValue));
        }
        pass_book.mutable = new_mutable_value;
    }
    Ok(())
}

fn set_price(pass_book: &mut PassBook, price: Option<u64>) -> (r: Result<(), ProgramError>)
    ensures
        step_done(old(pass_book)@, final(pass_book)@, r, change_price(old(pass_book)@, price)),
{
    if let Some(new_price) = price {
        if new_price == pass_book.price {
            return Err(fail(NFTPassError::CantSetTheSameValue));
        }
        pass_book.price = new_price;
    }
    Ok(())
}

fn set_price_mint(pass_book: &mut PassBook, price_mint_account: Option<&AccountInfo>) -> (r: Result<(), ProgramError>)
    ensures
        step_done(old(pass_book)@, final(pass_book)@, r, change_price_mint(old(pass_book)@, opt_account_view(price_mint_account))),
{
    if let Some(new_price_mint_account) = price_mint_account {
        if new_price_mint_account.key == pass_book.price_mint {
            return Err(fail(NFTPassError::CantSetTheSameValue));
        }
        let is_native = new_price_mint_account.key == system_program_id();
        if !is_native {
            assert_owned_by(new_price_mint_account, &token_program_id())?;
        }
        pass_book.price_mint = new_price_mint_account.key;
    }
    Ok(())
}

/// Applies the requested changes to the pass book.
pub fn apply_changes(
    pass_book: &mut PassBook,
    changes: EditPassBookArgs,
    price_mint_account: Option<&AccountInfo>,
) -> (r: Result<(), ProgramError>)
    ensures
        (final(pass_book)@, r) == apply_changes_outcome(old(pass_book)@, changes@, opt_account_view(price_mint_account)),
{
    let EditPassBookArgs { name, description, uri, price, mutable } = changes;
    set_name(pass_book, name)?;
    set_description(pass_book, description)?;
    set_uri(pass_book, uri)?;
    set_mutable(pass_book, mutable)?;
    set_price(pass_book, price)?;
    set_price_mint(pass_book, price_mint_account)?;
    Ok(())
}

/// The account that may name a new price mint: the third, where there is one.
pub open spec fn price_mint_of(accounts: Seq<AccountInfoView>) -> Option<AccountInfoView> {
    if accounts.len() >= 3 {
        Some(accounts[2])
    } else {
        None
    }
}

/// The pass book that an edit makes before its texts are padded, or the error that
/// stops it: the authority must sign, the pass book must be readable, the signer must
/// be its authority, the pass book must be editable and the changes must apply.
pub open spec fn edit_stage(accounts: Seq<AccountInfoView>, args: EditPassBookArgsView) -> Result<PassBookView, ProgramError> {
    if accounts.len() < 2 {
        Err(ProgramError::NotEnoughAccountKeys)
    } else if !accounts[1].is_signer {
        Err(ProgramError::MissingRequiredSignature)
    } else {
        match pass_book_unpack(accounts[0].data) {
            Err(e) => Err(e),
            Ok(v) => if accounts[1].key != v.authority {
                Err(program_error_of(NFTPassError::InvalidCreatorKey))
            } else {
                match able_to_edit(v) {
                    Err(e) => Err(e),
                    Ok(()) => {
                        let (w, res) = apply_changes_outcome(v, args, price_mint_of(accounts));
                        match res {
                            Err(e) => Err(e),
                            Ok(()) => Ok(w),
                        }
                    },
                }
            },
        }
    }
}

/// A pass book with its URI and description padded to their greatest lengths.
pub open spec fn puffed_view(w: PassBookView) -> PassBookView {
    PassBookView {
        uri: puffed(w.uri, MAX_URI_LENGTH),
        description: puffed(w.description, MAX_DESCRIPTION_LEN),
        ..w
    }
}

/// The edited pass book can be padded and packed: its URI and description are within
/// their greatest lengths, and its encoding within the format and the account. Where it
/// is not, the program panics.
pub open spec fn edit_fits(w: PassBookView) -> bool {
    &&& text_bytes(w.uri).len() <= MAX_URI_LENGTH
    &&& text_bytes(w.description).len() <= MAX_DESCRIPTION_LEN
    &&& pass_book_ok(puffed_view(w))
    &&& pass_book_bytes(puffed_view(w)).len() <= MAX_PASS_BOOK_LEN
}

/// Process EditPassBook instruction: `accounts[0]` is the pass book, `accounts[1]` its
/// authority, and `accounts[2]`, where given, the new price mint. `None` where the
/// program panics: the edited pass book cannot be padded or packed.
pub fn edit_pass_book(_program_id: &Pubkey, accounts: &mut Vec<AccountInfo>, args: EditPassBookArgs) -> (r: Option<
    Result<(), ProgramError>,
>)
    ensures
        match edit_stage(accounts_view(old(accounts)@), args@) {
            Ok(w) => if edit_fits(w) {
                r == Some(Ok::<(), ProgramError>(())) && accounts_view(final(accounts)@) == with_data(
                    accounts_view(old(accounts)@),
                    0,
                    repacked(old(accounts)@[0].data@, puffed_view(w)),
                )
            } else {
                r is None && final(accounts)@ == old(accounts)@
            },
            Err(e) => r == Some(Err::<(), ProgramError>(e)) && final(accounts)@ == old(accounts)@,
        },
{
    match edit_steps(accounts, args) {
        Err(e) => Some(Err(e)),
        Ok(pass_book) => write_edited(accounts, pass_book),
    }
}

/// The data holds a pass book whose blur hash and gate keeper `w` keeps.
pub open spec fn kept_from(data: Seq<u8>, w: PassBookView) -> bool {
    pass_book_unpack(data) matches Ok(v) && w.blur_hash == v.blur_hash && w.gate_keeper == v.gate_keeper
}

/// The checks and changes of an edit.
fn edit_steps(accounts: &Vec<AccountInfo>, args: EditPassBookArgs) -> (r: Result<PassBook, ProgramError>)
    ensures
        match edit_stage(accounts_view(accounts@), args@) {
            Ok(w) => r matches Ok(p) && p@ == w && accounts@.len() >= 2 && kept_from(accounts@[0].data@, p@),
            Err(e) => r == Err::<PassBook, ProgramError>(e),
        },
{
    if accounts.len() < 2 {
        return Err(ProgramError::NotEnoughAccountKeys);
    }
    assert_signer(&accounts[1])?;
    let mut pass_book = PassBook::unpack(accounts[0].data.as_slice())?;
    assert_account_key(&accounts[1], &pass_book.authority, Some(NFTPassError::InvalidCreatorKey))?;
    pass_book.assert_able_to_edit()?;
    let price_mint_account = if accounts.len() >= 3 {
        Some(&accounts[2])
    } else {
        None
    };
    apply_changes(&mut pass_book, args, price_mint_account)?;
    Ok(pass_book)
}

/// Pads the edited pass book and writes it to `accounts[0]`; `None` where it cannot be
/// padded or packed.
fn write_edited(accounts: &mut Vec<AccountInfo>, pass_book: PassBook) -> (r: Option<Result<(), ProgramError>>)
    requires
        old(accounts)@.len() >= 2,
        kept_from(old(accounts)@[0].data@, pass_book@),
    ensures
        if edit_fits(pass_book@) {
            r == Some(Ok::<(), ProgramError>(())) && accounts_view(final(accounts)@) == with_data(
                accounts_view(old(accounts)@),
                0,
                repacked(old(accounts)@[0].data@, puffed_view(pass_book@)),
            )
        } else {
            r is None && final(accounts)@ == old(accounts)@
        },
{
    let mut pass_book = pass_book;
    if pass_book.uri.as_str().as_bytes().len() > MAX_URI_LENGTH
        || pass_book.description.as_str().as_bytes().len() > MAX_DESCRIPTION_LEN {
        return None;
    }
    let ghost before = pass_book@;
    pass_book.puff_out_data_fields();
    proof {
        lemma_pass_book_unpack_inverse(accounts[0].data@);
        lemma_puffed_len(before.uri, MAX_URI_LENGTH);
        lemma_puffed_len(before.description, MAX_DESCRIPTION_LEN);
    }
    if pass_book.name.as_str().as_bytes().len() > 4294967295usize {
        return None;
    }
    let mut encoded: Vec<u8> = Vec::new();
    pass_book.serialize(&mut encoded);
    if encoded.len() > MAX_PASS_BOOK_LEN {
        return None;
    }
    let mut data = copy_bytes(&accounts[0].data);
    if let Err(e) = PassBook::pack(pass_book, data.as_mut_slice()) {
        return Some(Err(e));
    }
    set_data(accounts, 0, data);
    Some(Ok(()))
}

/// An edit that goes through writes the edited pass book, padded: the data reads back
/// as it, and it keeps the authority, the state and the supply of the pass book read.
pub proof fn lemma_edit_reads_back(accounts: Seq<AccountInfoView>, args: EditPassBookArgsView)
    requires
        edit_stage(accounts, args) matches Ok(w) && edit_fits(w),
    ensures
        pass_book_unpack(repacked(accounts[0].data, puffed_view(edit_stage(accounts, args)->Ok_0))) == Ok::<
            PassBookView,
            ProgramError,
        >(puffed_view(edit_stage(accounts, args)->Ok_0)),
        ({
            let v = pass_book_unpack(accounts[0].data)->Ok_0;
            let w = edit_stage(accounts, args)->Ok_0;
            w.authority == v.authority && w.pass_state == v.pass_state && w.supply == v.supply
        }),
{
    let data = accounts[0].data;
    let w = edit_stage(accounts, args)->Ok_0;
    lemma_pass_book_unpack_inverse(data);
    lemma_pass_book_rewritten(data, puffed_view(w));
}

/// `o`'s value where it has one, else `d`.
pub open spec fn given_or<T>(o: Option<T>, d: T) -> T {
    match o {
        Some(x) => x,
        None => d,
    }
}

/// An edit that goes through writes back the pass book with each field that the arguments
/// give set to the value given (the URI and the description padded), the price mint set to
/// the key of `accounts[2]` where there is one, and every other field as it was; and each
/// value given differs from the value it replaces.
pub proof fn lemma_edit_sets_what_is_given(accounts: Seq<AccountInfoView>, args: EditPassBookArgsView)
    requires
        edit_stage(accounts, args) matches Ok(w) && edit_fits(w),
    ensures
        ({
            let v = pass_book_unpack(accounts[0].data)->Ok_0;
            let w = edit_stage(accounts, args)->Ok_0;
            &&& pass_book_unpack(repacked(accounts[0].data, puffed_view(w))) matches Ok(n)
                && n.price == given_or(args.price, v.price)
                && n.name == given_or(args.name, v.name)
                && n.mutable == given_or(args.mutable, v.mutable)
                && n.uri == puffed(given_or(args.uri, v.uri), MAX_URI_LENGTH)
                && n.description == puffed(given_or(args.description, v.description), MAX_DESCRIPTION_LEN)
                && n.price_mint == (if accounts.len() >= 3 { accounts[2].key } else { v.price_mint })
                && n.account_type == v.account_type && n.authority == v.authority && n.mint == v.mint
                && n.pass_state == v.pass_state && n.access == v.access && n.duration == v.duration
                && n.supply == v.supply && n.max_supply == v.max_supply && n.blur_hash == v.blur_hash
                && n.created_at == v.created_at && n.gate_keeper == v.gate_keeper
            &&& args.price matches Some(p) ==> p != v.price
            &&& args.name matches Some(x) ==> x != v.name
            &&& args.mutable matches Some(m) ==> m != v.mutable
        }),
{
    lemma_edit_reads_back(accounts, args);
}

} // verus!
