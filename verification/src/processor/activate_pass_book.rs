//! Activation and deactivation of pass books.

use vstd::prelude::*;

use crate::account_info::{AccountInfo, AccountInfoView};
use crate::error::{fail, program_error_of, NFTPassError, ProgramError};
use crate::processor::{accounts_view, copy_bytes, repacked, set_data, with_data};
use crate::pubkey::Pubkey;
use crate::state::pass_book::{
    lemma_pass_book_bytes_len, lemma_pass_book_rewritten, lemma_pass_book_unpack_inverse,
    pass_book_unpack, PassBookView,
};
use crate::state::{PassBook, PassBookState};
use crate::utils::{assert_account_key, assert_owned_by, assert_signer};

verus! {

/// What setting the state of a pass book does to its data: the pass book must be owned
/// by the program and the authority must sign; the pass book must be readable and its
/// authority must be the signer; it must not be in `state` already, else `already`.
pub open spec fn set_state_outcome(
    program_id: Seq<u8>,
    accounts: Seq<AccountInfoView>,
    state: PassBookState,
    already: NFTPassError,
) -> Result<Seq<u8>, ProgramError> {
    if accounts.len() < 2 {
        Err(ProgramError::NotEnoughAccountKeys)
    } else if accounts[0].owner != program_id {
        Err(ProgramError::IllegalOwner)
    } else if !accounts[1].is_signer {
        Err(ProgramError::MissingRequiredSignature)
    } else {
        match pass_book_unpack(accounts[0].data) {
            Err(e) => Err(e),
            Ok(v) => if accounts[1].key != v.authority {
                Err(program_error_of(NFTPassError::InvalidCreatorKey))
            } else if v.pass_state == state {
                Err(program_error_of(already))
            } else {
                Ok(repacked(accounts[0].data, PassBookView { pass_state: state, ..v }))
            },
        }
    }
}

/// Sets the state of the pass book in `accounts[0]`, whose authority is `accounts[1]`.
fn set_pass_book_state(
    program_id: &Pubkey,
    accounts: &mut Vec<AccountInfo>,
    state: PassBookState,
    already: NFTPassError,
) -> (r: Result<(), ProgramError>)
    ensures
        match set_state_outcome(program_id@, accounts_view(old(accounts)@), state, already) {
            Ok(d) => r is Ok && accounts_view(final(accounts)@) == with_data(accounts_view(old(accounts)@), 0, d),
            Err(e) => r == Err::<(), ProgramError>(e) && final(accounts)@ == old(accounts)@,
        },
{
    if accounts.len() < 2 {
        return Err(ProgramError::NotEnoughAccountKeys);
    }
    assert_owned_by(&accounts[0], program_id)?;
    assert_signer(&accounts[1])?;
    let mut pass_book = PassBook::unpack(accounts[0].data.as_slice())?;
    assert_account_key(&accounts[1], &pass_book.authority, Some(NFTPassError::InvalidCreatorKey))?;
    if pass_book.pass_state == state {
        return Err(fail(already));
    }
    let ghost old_view = pass_book@;
    proof {
        lemma_pass_book_unpack_inverse(accounts[0].data@);
        lemma_pass_book_bytes_len(old_view);
    }
    pass_book.pass_state = state;
    proof {
        lemma_pass_book_bytes_len(pass_book@);
    }
    let mut data = copy_bytes(&accounts[0].data);
    PassBook::pack(pass_book, data.as_mut_slice())?;
    set_data(accounts, 0, data);
    Ok(())
}

/// Process ActivatePassBook instruction: `accounts[0]` is the pass book, `accounts[1]`
/// its authority.
pub fn activate_pass_book(program_id: &Pubkey, accounts: &mut Vec<AccountInfo>) -> (r: Result<
    (),
    ProgramError,
>)
    ensures
        match set_state_outcome(
            program_id@,
            accounts_view(old(accounts)@),
            PassBookState::Activated,
            NFTPassError::PassBookIsAlreadyActivated,
        ) {
            Ok(d) => r is Ok && accounts_view(final(accounts)@) == with_data(accounts_view(old(accounts)@), 0, d),
            Err(e) => r == Err::<(), ProgramError>(e) && final(accounts)@ == old(accounts)@,
        },
{
    set_pass_book_state(program_id, accounts, PassBookState::Activated, NFTPassError::PassBookIsAlreadyActivated)
}

/// Process DeactivatePassBook instruction: `accounts[0]` is the pass book, `accounts[1]`
/// its authority.
pub fn deactivate_pass_book(program_id: &Pubkey, accounts: &mut Vec<AccountInfo>) -> (r: Result<
    (),
    ProgramError,
>)
    ensures
        match set_state_outcome(
            program_id@,
            accounts_view(old(accounts)@),
            PassBookState::Deactivated,
            NFTPassError::PassBookIsAlreadyDeactivated,
        ) {
            Ok(d) => r is Ok && accounts_view(final(accounts)@) == with_data(accounts_view(old(accounts)@), 0, d),
            Err(e) => r == Err::<(), ProgramError>(e) && final(accounts)@ == old(accounts)@,
        },
{
    set_pass_book_state(program_id, accounts, PassBookState::Deactivated, NFTPassError::PassBookIsAlreadyDeactivated)
}

/// Setting the state of a pass book changes its state and nothing else: the data
/// written reads back as the pass book read, in the new state.
pub proof fn lemma_set_state_reads_back(
    program_id: Seq<u8>,
    accounts: Seq<AccountInfoView>,
    state: PassBookState,
    already: NFTPassError,
)
    requires
        set_state_outcome(program_id, accounts, state, already) is Ok,
    ensures
        pass_book_unpack(set_state_outcome(program_id, accounts, state, already)->Ok_0) == Ok::<
            PassBookView,
            ProgramError,
        >(PassBookView { pass_state: state, ..pass_book_unpack(accounts[0].data)->Ok_0 }),
{
    let data = accounts[0].data;
    let v = pass_book_unpack(data)->Ok_0;
    let w = PassBookView { pass_state: state, ..v };
    lemma_pass_book_unpack_inverse(data);
    lemma_pass_book_bytes_len(v);
    lemma_pass_book_bytes_len(w);
    lemma_pass_book_rewritten(data, w);
}

} // verus!
