//! Deletion of pass books.

use vstd::prelude::*;

use crate::account_info::{AccountInfo, AccountInfoView};
use crate::error::{program_error_of, NFTPassError, ProgramError};
use crate::processor::{accounts_view, copy_account};
use crate::pubkey::Pubkey;
use crate::state::pass_book::pass_book_unpack;
use crate::state::PassBook;
use crate::utils::{assert_account_key, assert_owned_by, assert_signer, empty_account_balance};

verus! {

/// Whether a pass book may be deleted: it must be owned by the program, the authority
/// must sign, the pass book must be readable and its authority must be the signer.
pub open spec fn delete_outcome(program_id: Seq<u8>, accounts: Seq<AccountInfoView>) -> Result<(), ProgramError> {
    if accounts.len() < 3 {
        Err(ProgramError::NotEnoughAccountKeys)
    } else if accounts[0].owner != program_id {
        Err(ProgramError::IllegalOwner)
    } else if !accounts[1].is_signer {
        Err(ProgramError::MissingRequiredSignature)
    } else {
        match pass_book_unpack(accounts[0].data) {
            Err(e) => Err(e),
            Ok(v) => if accounts[1].key != v.authority {
                Err(program_error_of(NFTPassError::InvalidCreatorKey))
            } else {
                Ok(())
            },
        }
    }
}

/// The accounts after the lamports of account 0 moved to account 2.
pub open spec fn refunded(s: Seq<AccountInfoView>) -> Seq<AccountInfoView> {
    s.update(0, AccountInfoView { lamports: 0, ..s[0] }).update(
        2,
        AccountInfoView { lamports: (s[2].lamports + s[0].lamports) as u64, ..s[2] },
    )
}

/// The refunder's balance cannot hold the pass book's lamports as well: adding them
/// overflows, and the program panics.
pub open spec fn refund_overflows(accounts: Seq<AccountInfoView>) -> bool {
    accounts[2].lamports + accounts[0].lamports > u64::MAX
}

/// Process DeletePassBook instruction: `accounts[0]` is the pass book, `accounts[1]` its
/// authority and `accounts[2]` the refunder, which receives all the lamports of the pass
/// book. `None` where the program panics: the refunder's balance overflows.
pub fn delete_pass_book(program_id: &Pubkey, accounts: &mut Vec<AccountInfo>) -> (r: Option<Result<(), ProgramError>>)
    ensures
        match delete_outcome(program_id@, accounts_view(old(accounts)@)) {
            Ok(()) => if refund_overflows(accounts_view(old(accounts)@)) {
                r is None && final(accounts)@ == old(accounts)@
            } else {
                r == Some(Ok::<(), ProgramError>(())) && accounts_view(final(accounts)@) == refunded(accounts_view(old(accounts)@))
            },
            Err(e) => r == Some(Err::<(), ProgramError>(e)) && final(accounts)@ == old(accounts)@,
        },
{
    if let Err(e) = delete_checks(program_id, accounts) {
        return Some(Err(e));
    }
    if accounts[2].lamports > u64::MAX - accounts[0].lamports {
        return None;
    }
    let mut source = copy_account(&accounts[0]);
    let mut receiver = copy_account(&accounts[2]);
    if let Err(e) = empty_account_balance(&mut source, &mut receiver) {
        return Some(Err(e));
    }
    accounts.set(0, source);
    accounts.set(2, receiver);
    assert(accounts_view(accounts@) =~= refunded(accounts_view(old(accounts)@)));
    Some(Ok(()))
}

/// The checks of a deletion.
fn delete_checks(program_id: &Pubkey, accounts: &Vec<AccountInfo>) -> (r: Result<(), ProgramError>)
    ensures
        r == delete_outcome(program_id@, accounts_view(accounts@)),
        r is Ok ==> accounts@.len() >= 3,
{
    if accounts.len() < 3 {
        return Err(ProgramError::NotEnoughAccountKeys);
    }
    assert_owned_by(&accounts[0], program_id)?;
    assert_signer(&accounts[1])?;
    let pass_book = PassBook::unpack(accounts[0].data.as_slice())?;
    assert_account_key(&accounts[1], &pass_book.authority, Some(NFTPassError::InvalidCreatorKey))?;
    Ok(())
}

/// Deleting a pass book moves all its lamports to the refunder: the pass book is left
/// with none, and no lamport is lost or made up.
pub proof fn lemma_delete_keeps_lamports(accounts: Seq<AccountInfoView>)
    requires
        accounts.len() >= 3,
        !refund_overflows(accounts),
    ensures
        refunded(accounts)[0].lamports == 0,
        refunded(accounts)[0].lamports + refunded(accounts)[2].lamports == accounts[0].lamports + accounts[2].lamports,
        refunded(accounts)[1] == accounts[1],
{
}

} // verus!
