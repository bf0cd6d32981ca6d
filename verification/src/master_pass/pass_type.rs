//! The kinds of pass a pass book can sell, and which of its optional settings each needs.

use vstd::prelude::*;

use crate::error::ProgramError;

verus! {

/// What a pass gives its holder.
#[derive(Clone, Copy, Debug, PartialEq, Eq, Structural)]
pub enum PassType {
    /// Access for a validity period
    Membership,
    /// Membership of a collection, given by its mint
    Collection,
    /// Time that an authority validates
    Time,
}

/// Whether exactly the setting that `pass_type` needs is given: a validity period for a
/// membership, a collection mint for a collection, a time validation authority for time.
pub open spec fn pass_type_fits(
    pass_type: PassType,
    validity_period_set: bool,
    collection_mint_set: bool,
    time_authority_set: bool,
) -> bool {
    match pass_type {
        PassType::Membership => validity_period_set && !collection_mint_set && !time_authority_set,
        PassType::Collection => collection_mint_set && !validity_period_set && !time_authority_set,
        PassType::Time => time_authority_set && !collection_mint_set && !validity_period_set,
    }
}

/// Checks that a pass book of `pass_type` is given the one optional setting that its type
/// needs and none of the others; else `InvalidArgument`.
pub fn check_pass_type(
    pass_type: PassType,
    validity_period_set: bool,
    collection_mint_set: bool,
    time_authority_set: bool,
) -> (r: Result<(), ProgramError>)
    ensures
        pass_type_fits(pass_type, validity_period_set, collection_mint_set, time_authority_set) ==> r is Ok,
        !pass_type_fits(pass_type, validity_period_set, collection_mint_set, time_authority_set) ==> r
            == Err::<(), ProgramError>(ProgramError::InvalidArgument),
{
    match pass_type {
        PassType::Membership => {
            if !validity_period_set || collection_mint_set || time_authority_set {
                return Err(ProgramError::InvalidArgument);
            }
        },
        PassType::Collection => {
            if !collection_mint_set || validity_period_set || time_authority_set {
                return Err(ProgramError::InvalidArgument);
            }
        },
        PassType::Time => {
            if !time_authority_set || collection_mint_set || validity_period_set {
                return Err(ProgramError::InvalidArgument);
            }
        },
    }
    Ok(())
}

} // verus!
