//! Address comparison and the arithmetic of prices and shares.

use vstd::prelude::*;

use crate::account_info::AccountInfoView;
use crate::error::{fail, program_error_of, NFTPassError, ProgramError};
use crate::account_info::AccountInfo;
use crate::pubkey::Pubkey;
use crate::state::IsInitialized;

verus! {

/// The first `n` bytes of `s`.
pub open spec fn first_bytes(s: Seq<u8>, n: usize) -> Seq<u8> {
    s.take(n as int)
}

/// `solana_program::program_memory::sol_memcmp`: compares the first `n` bytes of two
/// slices like C `memcmp`; the result is zero exactly when those bytes agree.
#[verifier::external_body]
fn sol_memcmp(s1: &[u8], s2: &[u8], n: usize) -> (r: i32)
    requires
        n <= s1@.len(),
        n <= s2@.len(),
    ensures
        (r == 0) == (first_bytes(s1@, n) == first_bytes(s2@, n)),
{
    solana_program::program_memory::sol_memcmp(s1, s2, n)
}

/// Checks two addresses for equality with a single `memcmp`.
pub fn cmp_pubkeys(a: &Pubkey, b: &Pubkey) -> (r: bool)
    ensures
        r == (a@ == b@),
{
    let r = sol_memcmp(a.0.as_slice(), b.0.as_slice(), 32);
    proof {
        assert(a.0@.take(32) =~= a@);
        assert(b.0@.take(32) =~= b@);
    }
    r == 0
}

/// Fails with `AccountAlreadyInitialized` exactly when the account is initialized.
pub fn assert_uninitialized<T: IsInitialized>(account: &T) -> (r: Result<(), ProgramError>)
    ensures
        r == if account.initialized() {
            Err::<(), ProgramError>(ProgramError::AccountAlreadyInitialized)
        } else {
            Ok(())
        },
{
    if account.is_initialized() {
        Err(ProgramError::AccountAlreadyInitialized)
    } else {
        Ok(())
    }
}

/// What `assert_signer` answers.
pub open spec fn signer_check(is_signer: bool) -> Result<(), ProgramError> {
    if is_signer {
        Ok(())
    } else {
        Err(ProgramError::MissingRequiredSignature)
    }
}

/// Fails with `MissingRequiredSignature` exactly when the account did not sign.
pub fn assert_signer(account: &AccountInfo) -> (r: Result<(), ProgramError>)
    ensures
        r == signer_check(account.is_signer),
{
    if account.is_signer {
        return Ok(());
    }
    Err(ProgramError::MissingRequiredSignature)
}

/// What `assert_owned_by` answers.
pub open spec fn owner_check(owner: Seq<u8>, expected: Seq<u8>) -> Result<(), ProgramError> {
    if owner != expected {
        Err(ProgramError::IllegalOwner)
    } else {
        Ok(())
    }
}

/// Fails with `IllegalOwner` exactly when the account is not owned by `owner`.
pub fn assert_owned_by(account: &AccountInfo, owner: &Pubkey) -> (r: Result<(), ProgramError>)
    ensures
        r == owner_check(account.owner@, owner@),
{
    if account.owner != *owner {
        Err(ProgramError::IllegalOwner)
    } else {
        Ok(())
    }
}

/// What `assert_account_key` answers: the given error, or `InvalidArgument` where none
/// is given, for an account at another address.
pub open spec fn key_check(key: Seq<u8>, expected: Seq<u8>, error: Option<NFTPassError>) -> Result<
    (),
    ProgramError,
> {
    if key != expected {
        match error {
            Some(e) => Err(program_error_of(e)),
            None => Err(ProgramError::InvalidArgument),
        }
    } else {
        Ok(())
    }
}

/// Fails exactly when the account is not at `key`.
pub fn assert_account_key(account_info: &AccountInfo, key: &Pubkey, error: Option<NFTPassError>) -> (r:
    Result<(), ProgramError>)
    ensures
        r == key_check(account_info.key@, key@, error),
{
    if account_info.key != *key {
        match error {
            Some(e) => Err(fail(e)),
            _ => Err(ProgramError::InvalidArgument),
        }
    } else {
        Ok(())
    }
}

/// Fails with `AccountNotRentExempt` exactly when the account holds fewer lamports than
/// `minimum_balance`, the balance that makes an account of its size rent exempt.
pub fn assert_rent_exempt(minimum_balance: u64, account_info: &AccountInfo) -> (r: Result<
    (),
    ProgramError,
>)
    ensures
        r == if account_info.lamports < minimum_balance {
            Err::<(), ProgramError>(ProgramError::AccountNotRentExempt)
        } else {
            Ok(())
        },
{
    if account_info.lamports < minimum_balance {
        Err(ProgramError::AccountNotRentExempt)
    } else {
        Ok(())
    }
}

/// The lamports that a new account still needs: at least one lamport, and the rent
/// exempt balance, less what it holds.
pub fn required_lamports(minimum_balance: u64, lamports: u64) -> (r: u64)
    ensures
        r == if minimum_balance > 1 {
            if minimum_balance > lamports { minimum_balance - lamports } else { 0 }
        } else {
            if 1 > lamports { 1 - lamports } else { 0 }
        },
{
    let needed = if minimum_balance > 1 { minimum_balance } else { 1 };
    needed.saturating_sub(lamports)
}

/// Moves all the lamports of `source` to `receiver`.
pub fn empty_account_balance(source: &mut AccountInfo, receiver: &mut AccountInfo) -> (r: Result<(), ProgramError>)
    requires
        old(receiver).lamports + old(source).lamports <= u64::MAX,
    ensures
        r is Ok,
        final(receiver)@ == (AccountInfoView { lamports: (old(receiver).lamports + old(source).lamports) as u64, ..old(receiver)@ }),
        final(source)@ == (AccountInfoView { lamports: 0, ..old(source)@ }),
{
    receiver.lamports = receiver.lamports + source.lamports;
    source.lamports = 0;
    Ok(())
}

/// `v + 1`, or `Overflow` where that does not fit in a `u64`.
pub fn error_increment(v: u64) -> (r: Result<u64, ProgramError>)
    ensures
        v < u64::MAX ==> r == Ok::<u64, ProgramError>((v + 1) as u64),
        v == u64::MAX ==> r == Err::<u64, ProgramError>(program_error_of(NFTPassError::Overflow)),
{
    match v.checked_add(1) {
        Some(w) => Ok(w),
        None => Err(fail(NFTPassError::Overflow)),
    }
}

/// The `MathOverflow` error.
pub open spec fn math_overflow() -> ProgramError {
    program_error_of(NFTPassError::MathOverflow)
}

/// `floor(total * shares / 100)`, or `MathOverflow` where the product does not fit.
pub open spec fn shares_spec(total: u64, shares: u64) -> Result<u64, ProgramError> {
    if total * shares > u64::MAX {
        Err(math_overflow())
    } else {
        Ok(((total * shares) / 100) as u64)
    }
}

/// `floor(total * points / 10000)`, or `MathOverflow` where the product does not fit.
pub open spec fn amount_for_points_spec(total: u64, points: u64) -> Result<u64, ProgramError> {
    if total * points > u64::MAX {
        Err(math_overflow())
    } else {
        Ok(((total * points) / 10000) as u64)
    }
}

/// `floor(floor(total * points / 10000) * shares / 100)`, or `MathOverflow` where one
/// of the two products does not fit.
pub open spec fn user_shares_by_points_spec(total: u64, points: u64, shares: u64) -> Result<
    u64,
    ProgramError,
> {
    match amount_for_points_spec(total, points) {
        Ok(a) => shares_spec(a, shares),
        Err(e) => Err(e),
    }
}

/// `total - floor(total * points / 10000)`, or `MathOverflow` where the product does not
/// fit or the difference is negative.
pub open spec fn shares_less_points_spec(total: u64, points: u64) -> Result<u64, ProgramError> {
    match amount_for_points_spec(total, points) {
        Ok(a) => if a <= total {
            Ok((total - a) as u64)
        } else {
            Err(math_overflow())
        },
        Err(e) => Err(e),
    }
}

/// The part `shares` (in percent) of `total`.
pub fn calculate_shares(total_amount: u64, shares: u64) -> (r: Result<u64, ProgramError>)
    ensures
        r == shares_spec(total_amount, shares),
{
    match total_amount.checked_mul(shares) {
        Some(p) => Ok(p / 100),
        None => Err(fail(NFTPassError::MathOverflow)),
    }
}

/// The part `shares` (in percent) of the part `seller_fee_basis_points` (in basis points)
/// of `total`.
pub fn calculate_user_shares_by_points(
    total_amount: u64,
    seller_fee_basis_points: u64,
    shares: u64,
) -> (r: Result<u64, ProgramError>)
    ensures
        r == user_shares_by_points_spec(total_amount, seller_fee_basis_points, shares),
{
    let a = calculate_amount_for_points(total_amount, seller_fee_basis_points)?;
    calculate_shares(a, shares)
}

/// The part `seller_fee_basis_points` (in basis points) of `total`.
pub fn calculate_amount_for_points(total_amount: u64, seller_fee_basis_points: u64) -> (r: Result<
    u64,
    ProgramError,
>)
    ensures
        r == amount_for_points_spec(total_amount, seller_fee_basis_points),
{
    match total_amount.checked_mul(seller_fee_basis_points) {
        Some(p) => Ok(p / 10000),
        None => Err(fail(NFTPassError::MathOverflow)),
    }
}

/// What is left of `total` after its part `seller_fee_basis_points` (in basis points).
pub fn calculate_shares_less_points(total_amount: u64, seller_fee_basis_points: u64) -> (r: Result<
    u64,
    ProgramError,
>)
    ensures
        r == shares_less_points_spec(total_amount, seller_fee_basis_points),
{
    let a = calculate_amount_for_points(total_amount, seller_fee_basis_points)?;
    match total_amount.checked_sub(a) {
        Some(d) => Ok(d),
        None => Err(fail(NFTPassError::MathOverflow)),
    }
}

/// A price splits exactly into the part for the points and what is left of it: no
/// lamport or token is lost or made up.
pub proof fn lemma_points_split_exactly(total: u64, points: u64)
    requires
        shares_less_points_spec(total, points) is Ok,
    ensures
        amount_for_points_spec(total, points) is Ok,
        amount_for_points_spec(total, points)->Ok_0 + shares_less_points_spec(total, points)->Ok_0
            == total,
{
}

} // verus!
