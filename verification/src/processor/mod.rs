//! Processing of the program's instructions.

pub mod activate_pass_book;
pub mod buy_pass_book;
pub mod delete_pass_book;
pub mod edit_pass_book;
pub mod init_pass_book;

use vstd::prelude::*;

use crate::account_info::{AccountInfo, AccountInfoView};
use crate::codec::put_bytes;
use crate::pda::seeds_view;
use crate::pubkey::Pubkey;
use crate::error::{NFTPassError, ProgramError};
use crate::instruction::{instruction_from_slice, NFTPassInstruction, NFTPassInstructionView};
use crate::processor::activate_pass_book::{
    activate_pass_book, deactivate_pass_book, lemma_set_state_reads_back, set_state_outcome,
};
use crate::processor::buy_pass_book::{buy, buy_outcome, BuyPlan, BuyPlanView};
use crate::processor::delete_pass_book::{
    delete_outcome, delete_pass_book, refund_overflows, refunded,
};
use crate::processor::edit_pass_book::{edit_fits, edit_pass_book, edit_stage, puffed_view};
use crate::processor::init_pass_book::{init_outcome, init_pass_book};
use crate::state::pass_book::pass_book_unpack;
use crate::state::PassBookState;
use crate::state::pass_book::{pass_book_bytes, PassBookView};

verus! {

/// The accounts seen through `View`.
pub open spec fn accounts_view(s: Seq<AccountInfo>) -> Seq<AccountInfoView> {
    s.map_values(|a: AccountInfo| a@)
}

/// The accounts with the data of account `i` replaced by `data`.
pub open spec fn with_data(s: Seq<AccountInfoView>, i: int, data: Seq<u8>) -> Seq<AccountInfoView> {
    s.update(i, AccountInfoView { data, ..s[i] })
}

/// A copy of `bytes`.
pub fn copy_bytes(bytes: &Vec<u8>) -> (r: Vec<u8>)
    ensures
        r@ == bytes@,
{
    let mut r: Vec<u8> = Vec::new();
    put_bytes(&mut r, bytes.as_slice());
    assert(r@ =~= bytes@);
    r
}

/// Replaces the data of account `i` by `data`.
pub fn set_data(accounts: &mut Vec<AccountInfo>, i: usize, data: Vec<u8>)
    requires
        i < old(accounts)@.len(),
    ensures
        final(accounts)@.len() == old(accounts)@.len(),
        accounts_view(final(accounts)@) == with_data(accounts_view(old(accounts)@), i as int, data@),
{
    let a = AccountInfo {
        key: accounts[i].key,
        owner: accounts[i].owner,
        is_signer: accounts[i].is_signer,
        is_writable: accounts[i].is_writable,
        lamports: accounts[i].lamports,
        data,
    };
    accounts.set(i, a);
    assert(accounts_view(final(accounts)@) =~= with_data(accounts_view(old(accounts)@), i as int, data@));
}

/// `data` with the encoding of `v` written over its front.
pub open spec fn repacked(data: Seq<u8>, v: PassBookView) -> Seq<u8> {
    pass_book_bytes(v) + data.skip(pass_book_bytes(v).len() as int)
}

/// An account that an instruction creates before it writes the account's data: its
/// place in the account list, its size, and the seeds, bump seed last, that sign for its
/// address (none where the account signs the transaction itself). Creating it makes its
/// data `size` zero bytes and the program its owner.
pub struct NewAccount {
    pub index: usize,
    pub size: usize,
    pub seeds: Vec<Vec<u8>>,
}

/// `NewAccount` with its seeds as byte sequences.
pub struct NewAccountView {
    pub index: usize,
    pub size: usize,
    pub seeds: Seq<Seq<u8>>,
}

impl View for NewAccount {
    type V = NewAccountView;

    open spec fn view(&self) -> NewAccountView {
        NewAccountView { index: self.index, size: self.size, seeds: seeds_view(self.seeds@) }
    }
}

/// The new accounts seen through `View`.
pub open spec fn new_accounts_view(s: Seq<NewAccount>) -> Seq<NewAccountView> {
    s.map_values(|n: NewAccount| n@)
}

/// `n` zero bytes.
pub open spec fn zeros(n: nat) -> Seq<u8> {
    Seq::new(n, |i: int| 0u8)
}

/// The accounts after account `i` was created for `owner` with `size` zero bytes.
pub open spec fn created(a: Seq<AccountInfoView>, i: int, size: nat, owner: Seq<u8>) -> Seq<AccountInfoView> {
    a.update(i, AccountInfoView { data: zeros(size), owner, ..a[i] })
}

/// What packing a value whose encoding is `bytes` into `data` gives: the data must be
/// `len` bytes long, else `InvalidAccountData`.
pub open spec fn packed(data: Seq<u8>, bytes: Seq<u8>, len: usize) -> Result<Seq<u8>, ProgramError> {
    if data.len() != len {
        Err(ProgramError::InvalidAccountData)
    } else {
        Ok(bytes + data.skip(bytes.len() as int))
    }
}

/// A copy of an account.
pub fn copy_account(a: &AccountInfo) -> (r: AccountInfo)
    ensures
        r@ == a@,
{
    AccountInfo {
        key: a.key,
        owner: a.owner,
        is_signer: a.is_signer,
        is_writable: a.is_writable,
        lamports: a.lamports,
        data: copy_bytes(&a.data),
    }
}

/// A copy of the accounts.
pub fn copy_accounts(accounts: &Vec<AccountInfo>) -> (r: Vec<AccountInfo>)
    ensures
        accounts_view(r@) == accounts_view(accounts@),
{
    let mut r: Vec<AccountInfo> = Vec::new();
    let mut i: usize = 0;
    while i < accounts.len()
        invariant
            i <= accounts.len(),
            r@.len() == i,
            forall|j: int| 0 <= j < i ==> #[trigger] r@[j]@ == accounts@[j]@,
        decreases accounts.len() - i,
    {
        r.push(copy_account(&accounts[i]));
        i = i + 1;
    }
    assert(accounts_view(r@) =~= accounts_view(accounts@));
    r
}

/// Creates account `index` for `owner` with `size` zero bytes, signed for by `seeds`.
pub fn create_account(
    accounts: &mut Vec<AccountInfo>,
    new_accounts: &mut Vec<NewAccount>,
    index: usize,
    size: usize,
    owner: &Pubkey,
    seeds: Vec<Vec<u8>>,
)
    requires
        index < old(accounts)@.len(),
    ensures
        final(accounts)@.len() == old(accounts)@.len(),
        accounts_view(final(accounts)@) == created(accounts_view(old(accounts)@), index as int, size as nat, owner@),
        new_accounts_view(final(new_accounts)@) == new_accounts_view(old(new_accounts)@).push(
            NewAccountView { index, size, seeds: seeds_view(seeds@) },
        ),
{
    let mut data: Vec<u8> = Vec::new();
    let mut i: usize = 0;
    while i < size
        invariant
            i <= size,
            data@ == zeros(i as nat),
        decreases size - i,
    {
        data.push(0u8);
        i = i + 1;
        assert(data@ =~= zeros(i as nat));
    }
    let a = AccountInfo {
        key: accounts[index].key,
        owner: *owner,
        is_signer: accounts[index].is_signer,
        is_writable: accounts[index].is_writable,
        lamports: accounts[index].lamports,
        data,
    };
    accounts.set(index, a);
    assert(accounts_view(final(accounts)@) =~= created(accounts_view(old(accounts)@), index as int, size as nat, owner@));
    let ghost n = NewAccountView { index, size, seeds: seeds_view(seeds@) };
    new_accounts.push(NewAccount { index, size, seeds });
    assert(new_accounts_view(final(new_accounts)@) =~= new_accounts_view(old(new_accounts)@).push(n));
}

/// What an instruction leaves the caller to do on chain besides writing the accounts'
/// new data: nothing, the creation of accounts, or the steps of a purchase.
pub enum Outcome {
    Done,
    Created(Vec<NewAccount>),
    Bought(BuyPlan),
}

/// `Outcome` seen through `View`.
pub enum OutcomeView {
    Done,
    Created(Seq<NewAccountView>),
    Bought(BuyPlanView),
}

impl View for Outcome {
    type V = OutcomeView;

    open spec fn view(&self) -> OutcomeView {
        match self {
            Outcome::Done => OutcomeView::Done,
            Outcome::Created(n) => OutcomeView::Created(new_accounts_view(n@)),
            Outcome::Bought(p) => OutcomeView::Bought(p@),
        }
    }
}

/// What the program does with instruction data `input` on `accounts` at `now`: the
/// instruction is read, then carried out as the processor of its kind says. `None` where
/// the program panics.
pub open spec fn processed(program_id: Seq<u8>, a: Seq<AccountInfoView>, input: Seq<u8>, now: i64) -> Option<
    Result<(Seq<AccountInfoView>, OutcomeView), ProgramError>,
> {
    match instruction_from_slice(input) {
        Err(e) => Some(Err(e)),
        Ok(NFTPassInstructionView::ActivatePassBook) => match set_state_outcome(
            program_id,
            a,
            PassBookState::Activated,
            NFTPassError::PassBookIsAlreadyActivated,
        ) {
            Ok(d) => Some(Ok((with_data(a, 0, d), OutcomeView::Done))),
            Err(e) => Some(Err(e)),
        },
        Ok(NFTPassInstructionView::DeactivatePassBook) => match set_state_outcome(
            program_id,
            a,
            PassBookState::Deactivated,
            NFTPassError::PassBookIsAlreadyDeactivated,
        ) {
            Ok(d) => Some(Ok((with_data(a, 0, d), OutcomeView::Done))),
            Err(e) => Some(Err(e)),
        },
        Ok(NFTPassInstructionView::DeletePassBook) => match delete_outcome(program_id, a) {
            Err(e) => Some(Err(e)),
            Ok(()) => if refund_overflows(a) {
                None
            } else {
                Some(Ok((refunded(a), OutcomeView::Done)))
            },
        },
        Ok(NFTPassInstructionView::EditPassBook(args)) => match edit_stage(a, args) {
            Err(e) => Some(Err(e)),
            Ok(w) => if edit_fits(w) {
                Some(Ok((with_data(a, 0, repacked(a[0].data, puffed_view(w))), OutcomeView::Done)))
            } else {
                None
            },
        },
        Ok(NFTPassInstructionView::InitPassBook(args)) => match init_outcome(program_id, a, args, now) {
            None => None,
            Some(Err(e)) => Some(Err(e)),
            Some(Ok((b, c))) => Some(Ok((b, OutcomeView::Created(c)))),
        },
        Ok(NFTPassInstructionView::BuyPass(args)) => match buy_outcome(program_id, a, args, now) {
            None => None,
            Some(Err(e)) => Some(Err(e)),
            Some(Ok((b, plan))) => Some(Ok((b, OutcomeView::Bought(plan)))),
        },
    }
}

/// Every instruction that changes a pass book's account, activating, deactivating,
/// editing or deleting it, goes through only when signed by the pass book's authority.
pub proof fn lemma_pass_book_changes_need_its_authority(
    program_id: Seq<u8>,
    a: Seq<AccountInfoView>,
    input: Seq<u8>,
    now: i64,
)
    requires
        processed(program_id, a, input, now) matches Some(Ok(_)),
        instruction_from_slice(input) matches Ok(ix) && (ix is ActivatePassBook || ix is DeactivatePassBook
            || ix is EditPassBook || ix is DeletePassBook),
    ensures
        a.len() >= 2,
        a[1].is_signer,
        pass_book_unpack(a[0].data) matches Ok(v) && v.authority == a[1].key,
{
}

/// The program's processor.
pub struct Processor {}

impl Processor {
    /// Processes an instruction: reads `input` and carries the instruction out on
    /// `accounts`, given the clock's `unix_timestamp`. `None` where the program panics;
    /// on an error nothing changes.
    pub fn process_instruction(
        program_id: &Pubkey,
        accounts: &mut Vec<AccountInfo>,
        input: &[u8],
        unix_timestamp: i64,
    ) -> (r: Option<Result<Outcome, ProgramError>>)
        ensures
            match processed(program_id@, accounts_view(old(accounts)@), input@, unix_timestamp) {
                None => r is None && final(accounts)@ == old(accounts)@,
                Some(Err(e)) => r matches Some(Err(x)) && x == e && final(accounts)@ == old(accounts)@,
                Some(Ok((a, o))) => r matches Some(Ok(x)) && x@ == o && accounts_view(final(accounts)@) == a,
            },
    {
        let instruction = match NFTPassInstruction::try_from_slice(input) {
            Ok(i) => i,
            Err(e) => return Some(Err(e)),
        };
        match instruction {
            NFTPassInstruction::ActivatePassBook => match activate_pass_book(program_id, accounts) {
                Ok(()) => Some(Ok(Outcome::Done)),
                Err(e) => Some(Err(e)),
            },
            NFTPassInstruction::DeactivatePassBook => match deactivate_pass_book(program_id, accounts) {
                Ok(()) => Some(Ok(Outcome::Done)),
                Err(e) => Some(Err(e)),
            },
            NFTPassInstruction::DeletePassBook => match delete_pass_book(program_id, accounts) {
                None => None,
                Some(Ok(())) => Some(Ok(Outcome::Done)),
                Some(Err(e)) => Some(Err(e)),
            },
            NFTPassInstruction::EditPassBook(args) => match edit_pass_book(program_id, accounts, args) {
                None => None,
                Some(Ok(())) => Some(Ok(Outcome::Done)),
                Some(Err(e)) => Some(Err(e)),
            },
            NFTPassInstruction::InitPassBook(args) => match init_pass_book(program_id, accounts, args, unix_timestamp) {
                None => None,
                Some(Ok(n)) => Some(Ok(Outcome::Created(n))),
                Some(Err(e)) => Some(Err(e)),
            },
            NFTPassInstruction::BuyPass(args) => match buy(program_id, accounts, args, unix_timestamp) {
                None => None,
                Some(Ok(p)) => Some(Ok(Outcome::Bought(p))),
                Some(Err(e)) => Some(Err(e)),
            },
        }
    }
}

/// An `ActivatePassBook` instruction that goes through leaves the pass book `a[0]`, which
/// was not active, reading back as before but activated; a `DeactivatePassBook`
/// instruction likewise leaves it deactivated, where it was not.
pub proof fn lemma_processing_sets_the_state(program_id: Seq<u8>, a: Seq<AccountInfoView>, input: Seq<u8>, now: i64)
    requires
        processed(program_id, a, input, now) matches Some(Ok(_)),
        instruction_from_slice(input) matches Ok(NFTPassInstructionView::ActivatePassBook) || instruction_from_slice(
            input,
        ) matches Ok(NFTPassInstructionView::DeactivatePassBook),
    ensures
        ({
            let v = pass_book_unpack(a[0].data)->Ok_0;
            let b = processed(program_id, a, input, now)->Some_0->Ok_0.0;
            let state = if instruction_from_slice(input) matches Ok(NFTPassInstructionView::ActivatePassBook) {
                PassBookState::Activated
            } else {
                PassBookState::Deactivated
            };
            &&& pass_book_unpack(a[0].data) is Ok
            &&& v.pass_state != state
            &&& b.len() == a.len()
            &&& pass_book_unpack(b[0].data) == Ok::<PassBookView, ProgramError>(PassBookView { pass_state: state, ..v })
            &&& forall|k: int| 0 < k < a.len() ==> #[trigger] b[k] == a[k]
        }),
{
    if instruction_from_slice(input) matches Ok(NFTPassInstructionView::ActivatePassBook) {
        lemma_set_state_reads_back(program_id, a, PassBookState::Activated, NFTPassError::PassBookIsAlreadyActivated);
    } else {
        lemma_set_state_reads_back(program_id, a, PassBookState::Deactivated, NFTPassError::PassBookIsAlreadyDeactivated);
    }
}

} // verus!
