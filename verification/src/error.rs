//! Errors of the program.

use vstd::prelude::*;

verus! {

/// Errors that may be returned by the NFT pass program.
#[derive(Clone, Copy, Debug, PartialEq, Eq, Structural)]
pub enum NFTPassError {
    /// Pass should be activated
    PassNotActivated,
    /// Can't set the same value
    CantSetTheSameValue,
    /// Invalid Authority
    InvalidCreatorKey,
    /// Invalid Mint Key
    InvalidMintKey,
    /// Invalid Update Authority Key
    InvalidUpdateAuthorityKey,
    /// Invalid PassStore Key
    InvalidStoreKey,
    /// Invalid Payout Key
    InvalidPayoutKey,
    /// Invalid Program Authority Key
    InvalidProgramAuthority,
    /// Wrong pass state to change data
    WrongPassState,
    /// Pass is immutable
    ImmutablePassBook,
    /// Overflow
    Overflow,
    /// Underflow
    Underflow,
    /// Invalid Master Pass Key
    InvalidPassBookKey,
    /// Invalid Pass Key
    InvalidPassKey,
    /// Invalid Pass Collection Mint Key
    InvalidPassCollectionMintKey,
    /// Invalid Duration
    InvalidDuration,
    /// Name too long
    NameTooLong,
    /// URI too long
    UriTooLong,
    /// Description too long
    DescriptionTooLong,
    /// Invalid seller basis point
    InvalidBasisPoints,
    /// Wrong max supply
    WrongMaxSupply,
    /// Wrong validity period
    WrongValidityPeriod,
    /// Wrong duration
    WrongDuration,
    /// Master edition should have unlimited supply
    WrongMasterSupply,
    /// Invalid Token Account Key
    InvalidTokenAccountKey,
    /// Pass book is already activated
    PassBookIsAlreadyActivated,
    /// Pass book is already deactivated
    PassBookIsAlreadyDeactivated,
    /// Price token does not match what was provided
    PriceTokenMismatch,
    /// User wallet must match user token account
    UserWalletMustMatchUserTokenAccount,
    /// Invalid Vault Key
    InvalidVaultToken,
    /// Invalid Market Authoriy Key
    InvalidMarketAuthority,
    /// Market seller basis require market authority
    MarketSellerBasisPointRequiresMarketAuthority,
    /// Wrong market seller basis point
    WrongMarketSellerBasisPoint,
    /// Math overflow
    MathOverflow,
    /// Wrong Referral Share
    WrongReferralShare,
    /// Wrong Referral Kickback
    WrongReferralKickBack,
    /// Invalid TradeHistory Key
    InvalidTradeHistoryKey,
    /// SupplyIsGtThanMaxSupply
    SupplyIsGtThanMaxSupply,
    /// UserReachBuyLimit
    UserReachBuyLimit,
    /// InvalidPayerTokenAccount
    InvalidPayerTokenAccount,
    /// InvalidTokenAccount
    InvalidTokenAccount,
    /// Uninitialized
    Uninitialized,
    /// Invalid Membership Key
    InvalidMembershipKey,
    /// User has active membership
    UserHasActiveMembership,
}

/// The number of an error, its place in the declaration.
pub open spec fn code_of(e: NFTPassError) -> u32 {
    match e {
        NFTPassError::PassNotActivated => 0u32,
        NFTPassError::CantSetTheSameValue => 1u32,
        NFTPassError::InvalidCreatorKey => 2u32,
        NFTPassError::InvalidMintKey => 3u32,
        NFTPassError::InvalidUpdateAuthorityKey => 4u32,
        NFTPassError::InvalidStoreKey => 5u32,
        NFTPassError::InvalidPayoutKey => 6u32,
        NFTPassError::InvalidProgramAuthority => 7u32,
        NFTPassError::WrongPassState => 8u32,
        NFTPassError::ImmutablePassBook => 9u32,
        NFTPassError::Overflow => 10u32,
        NFTPassError::Underflow => 11u32,
        NFTPassError::InvalidPassBookKey => 12u32,
        NFTPassError::InvalidPassKey => 13u32,
        NFTPassError::InvalidPassCollectionMintKey => 14u32,
        NFTPassError::InvalidDuration => 15u32,
        NFTPassError::NameTooLong => 16u32,
        NFTPassError::UriTooLong => 17u32,
        NFTPassError::DescriptionTooLong => 18u32,
        NFTPassError::InvalidBasisPoints => 19u32,
        NFTPassError::WrongMaxSupply => 20u32,
        NFTPassError::WrongValidityPeriod => 21u32,
        NFTPassError::WrongDuration => 22u32,
        NFTPassError::WrongMasterSupply => 23u32,
        NFTPassError::InvalidTokenAccountKey => 24u32,
        NFTPassError::PassBookIsAlreadyActivated => 25u32,
        NFTPassError::PassBookIsAlreadyDeactivated => 26u32,
        NFTPassError::PriceTokenMismatch => 27u32,
        NFTPassError::UserWalletMustMatchUserTokenAccount => 28u32,
        NFTPassError::InvalidVaultToken => 29u32,
        NFTPassError::InvalidMarketAuthority => 30u32,
        NFTPassError::MarketSellerBasisPointRequiresMarketAuthority => 31u32,
        NFTPassError::WrongMarketSellerBasisPoint => 32u32,
        NFTPassError::MathOverflow => 33u32,
        NFTPassError::WrongReferralShare => 34u32,
        NFTPassError::WrongReferralKickBack => 35u32,
        NFTPassError::InvalidTradeHistoryKey => 36u32,
        NFTPassError::SupplyIsGtThanMaxSupply => 37u32,
        NFTPassError::UserReachBuyLimit => 38u32,
        NFTPassError::InvalidPayerTokenAccount => 39u32,
        NFTPassError::InvalidTokenAccount => 40u32,
        NFTPassError::Uninitialized => 41u32,
        NFTPassError::InvalidMembershipKey => 42u32,
        NFTPassError::UserHasActiveMembership => 43u32,
    }
}

/// The error with a given number, where there is one.
pub open spec fn error_of_code(n: u32) -> Option<NFTPassError> {
    if n == 0u32 {
        Some(NFTPassError::PassNotActivated)
    } else if n == 1u32 {
        Some(NFTPassError::CantSetTheSameValue)
    } else if n == 2u32 {
        Some(NFTPassError::InvalidCreatorKey)
    } else if n == 3u32 {
        Some(NFTPassError::InvalidMintKey)
    } else if n == 4u32 {
        Some(NFTPassError::InvalidUpdateAuthorityKey)
    } else if n == 5u32 {
        Some(NFTPassError::InvalidStoreKey)
    } else if n == 6u32 {
        Some(NFTPassError::InvalidPayoutKey)
    } else if n == 7u32 {
        Some(NFTPassError::InvalidProgramAuthority)
    } else if n == 8u32 {
        Some(NFTPassError::WrongPassState)
    } else if n == 9u32 {
        Some(NFTPassError::ImmutablePassBook)
    } else if n == 10u32 {
        Some(NFTPassError::Overflow)
    } else if n == 11u32 {
        Some(NFTPassError::Underflow)
    } else if n == 12u32 {
        Some(NFTPassError::InvalidPassBookKey)
    } else if n == 13u32 {
        Some(NFTPassError::InvalidPassKey)
    } else if n == 14u32 {
        Some(NFTPassError::InvalidPassCollectionMintKey)
    } else if n == 15u32 {
        Some(NFTPassError::InvalidDuration)
    } else if n == 16u32 {
        Some(NFTPassError::NameTooLong)
    } else if n == 17u32 {
        Some(NFTPassError::UriTooLong)
    } else if n == 18u32 {
        Some(NFTPassError::DescriptionTooLong)
    } else if n == 19u32 {
        Some(NFTPassError::InvalidBasisPoints)
    } else if n == 20u32 {
        Some(NFTPassError::WrongMaxSupply)
    } else if n == 21u32 {
        Some(NFTPassError::WrongValidityPeriod)
    } else if n == 22u32 {
        Some(NFTPassError::WrongDuration)
    } else if n == 23u32 {
        Some(NFTPassError::WrongMasterSupply)
    } else if n == 24u32 {
        Some(NFTPassError::InvalidTokenAccountKey)
    } else if n == 25u32 {
        Some(NFTPassError::PassBookIsAlreadyActivated)
    } else if n == 26u32 {
        Some(NFTPassError::PassBookIsAlreadyDeactivated)
    } else if n == 27u32 {
        Some(NFTPassError::PriceTokenMismatch)
    } else if n == 28u32 {
        Some(NFTPassError::UserWalletMustMatchUserTokenAccount)
    } else if n == 29u32 {
        Some(NFTPassError::InvalidVaultToken)
    } else if n == 30u32 {
        Some(NFTPassError::InvalidMarketAuthority)
    } else if n == 31u32 {
        Some(NFTPassError::MarketSellerBasisPointRequiresMarketAuthority)
    } else if n == 32u32 {
        Some(NFTPassError::WrongMarketSellerBasisPoint)
    } else if n == 33u32 {
        Some(NFTPassError::MathOverflow)
    } else if n == 34u32 {
        Some(NFTPassError::WrongReferralShare)
    } else if n == 35u32 {
        Some(NFTPassError::WrongReferralKickBack)
    } else if n == 36u32 {
        Some(NFTPassError::InvalidTradeHistoryKey)
    } else if n == 37u32 {
        Some(NFTPassError::SupplyIsGtThanMaxSupply)
    } else if n == 38u32 {
        Some(NFTPassError::UserReachBuyLimit)
    } else if n == 39u32 {
        Some(NFTPassError::InvalidPayerTokenAccount)
    } else if n == 40u32 {
        Some(NFTPassError::InvalidTokenAccount)
    } else if n == 41u32 {
        Some(NFTPassError::Uninitialized)
    } else if n == 42u32 {
        Some(NFTPassError::InvalidMembershipKey)
    } else if n == 43u32 {
        Some(NFTPassError::UserHasActiveMembership)
    } else {
        None
    }
}

/// Every error number decodes back to its error.
pub proof fn lemma_error_code_roundtrip(e: NFTPassError)
    ensures
        error_of_code(code_of(e)) == Some(e),
        code_of(e) < 44,
{
}

impl NFTPassError {
    /// The number of this error, as a custom program error carries it.
    pub fn code(&self) -> (r: u32)
        ensures
            r == code_of(*self),
    {
        match self {
            NFTPassError::PassNotActivated => 0,
            NFTPassError::CantSetTheSameValue => 1,
            NFTPassError::InvalidCreatorKey => 2,
            NFTPassError::InvalidMintKey => 3,
            NFTPassError::InvalidUpdateAuthorityKey => 4,
            NFTPassError::InvalidStoreKey => 5,
            NFTPassError::InvalidPayoutKey => 6,
            NFTPassError::InvalidProgramAuthority => 7,
            NFTPassError::WrongPassState => 8,
            NFTPassError::ImmutablePassBook => 9,
            NFTPassError::Overflow => 10,
            NFTPassError::Underflow => 11,
            NFTPassError::InvalidPassBookKey => 12,
            NFTPassError::InvalidPassKey => 13,
            NFTPassError::InvalidPassCollectionMintKey => 14,
            NFTPassError::InvalidDuration => 15,
            NFTPassError::NameTooLong => 16,
            NFTPassError::UriTooLong => 17,
            NFTPassError::DescriptionTooLong => 18,
            NFTPassError::InvalidBasisPoints => 19,
            NFTPassError::WrongMaxSupply => 20,
            NFTPassError::WrongValidityPeriod => 21,
            NFTPassError::WrongDuration => 22,
            NFTPassError::WrongMasterSupply => 23,
            NFTPassError::InvalidTokenAccountKey => 24,
            NFTPassError::PassBookIsAlreadyActivated => 25,
            NFTPassError::PassBookIsAlreadyDeactivated => 26,
            NFTPassError::PriceTokenMismatch => 27,
            NFTPassError::UserWalletMustMatchUserTokenAccount => 28,
            NFTPassError::InvalidVaultToken => 29,
            NFTPassError::InvalidMarketAuthority => 30,
            NFTPassError::MarketSellerBasisPointRequiresMarketAuthority => 31,
            NFTPassError::WrongMarketSellerBasisPoint => 32,
            NFTPassError::MathOverflow => 33,
            NFTPassError::WrongReferralShare => 34,
            NFTPassError::WrongReferralKickBack => 35,
            NFTPassError::InvalidTradeHistoryKey => 36,
            NFTPassError::SupplyIsGtThanMaxSupply => 37,
            NFTPassError::UserReachBuyLimit => 38,
            NFTPassError::InvalidPayerTokenAccount => 39,
            NFTPassError::InvalidTokenAccount => 40,
            NFTPassError::Uninitialized => 41,
            NFTPassError::InvalidMembershipKey => 42,
            NFTPassError::UserHasActiveMembership => 43,
        }
    }

    /// The error with number `n`, where there is one.
    pub fn from_u32(n: u32) -> (r: Option<NFTPassError>)
        ensures
            r == error_of_code(n),
    {
        if n == 0 {
            Some(NFTPassError::PassNotActivated)
        } else if n == 1 {
            Some(NFTPassError::CantSetTheSameValue)
        } else if n == 2 {
            Some(NFTPassError::InvalidCreatorKey)
        } else if n == 3 {
            Some(NFTPassError::InvalidMintKey)
        } else if n == 4 {
            Some(NFTPassError::InvalidUpdateAuthorityKey)
        } else if n == 5 {
            Some(NFTPassError::InvalidStoreKey)
        } else if n == 6 {
            Some(NFTPassError::InvalidPayoutKey)
        } else if n == 7 {
            Some(NFTPassError::InvalidProgramAuthority)
        } else if n == 8 {
            Some(NFTPassError::WrongPassState)
        } else if n == 9 {
            Some(NFTPassError::ImmutablePassBook)
        } else if n == 10 {
            Some(NFTPassError::Overflow)
        } else if n == 11 {
            Some(NFTPassError::Underflow)
        } else if n == 12 {
            Some(NFTPassError::InvalidPassBookKey)
        } else if n == 13 {
            Some(NFTPassError::InvalidPassKey)
        } else if n == 14 {
            Some(NFTPassError::InvalidPassCollectionMintKey)
        } else if n == 15 {
            Some(NFTPassError::InvalidDuration)
        } else if n == 16 {
            Some(NFTPassError::NameTooLong)
        } else if n == 17 {
            Some(NFTPassError::UriTooLong)
        } else if n == 18 {
            Some(NFTPassError::DescriptionTooLong)
        } else if n == 19 {
            Some(NFTPassError::InvalidBasisPoints)
        } else if n == 20 {
            Some(NFTPassError::WrongMaxSupply)
        } else if n == 21 {
            Some(NFTPassError::WrongValidityPeriod)
        } else if n == 22 {
            Some(NFTPassError::WrongDuration)
        } else if n == 23 {
            Some(NFTPassError::WrongMasterSupply)
        } else if n == 24 {
            Some(NFTPassError::InvalidTokenAccountKey)
        } else if n == 25 {
            Some(NFTPassError::PassBookIsAlreadyActivated)
        } else if n == 26 {
            Some(NFTPassError::PassBookIsAlreadyDeactivated)
        } else if n == 27 {
            Some(NFTPassError::PriceTokenMismatch)
        } else if n == 28 {
            Some(NFTPassError::UserWalletMustMatchUserTokenAccount)
        } else if n == 29 {
            Some(NFTPassError::InvalidVaultToken)
        } else if n == 30 {
            Some(NFTPassError::InvalidMarketAuthority)
        } else if n == 31 {
            Some(NFTPassError::MarketSellerBasisPointRequiresMarketAuthority)
        } else if n == 32 {
            Some(NFTPassError::WrongMarketSellerBasisPoint)
        } else if n == 33 {
            Some(NFTPassError::MathOverflow)
        } else if n == 34 {
            Some(NFTPassError::WrongReferralShare)
        } else if n == 35 {
            Some(NFTPassError::WrongReferralKickBack)
        } else if n == 36 {
            Some(NFTPassError::InvalidTradeHistoryKey)
        } else if n == 37 {
            Some(NFTPassError::SupplyIsGtThanMaxSupply)
        } else if n == 38 {
            Some(NFTPassError::UserReachBuyLimit)
        } else if n == 39 {
            Some(NFTPassError::InvalidPayerTokenAccount)
        } else if n == 40 {
            Some(NFTPassError::InvalidTokenAccount)
        } else if n == 41 {
            Some(NFTPassError::Uninitialized)
        } else if n == 42 {
            Some(NFTPassError::InvalidMembershipKey)
        } else if n == 43 {
            Some(NFTPassError::UserHasActiveMembership)
        } else {
            None
        }
    }
}
/// The errors with which an instruction of the program fails.
#[derive(Clone, Copy, Debug, PartialEq, Eq, Structural)]
pub enum ProgramError {
    /// A program-specific error, carrying the number of an `NFTPassError`.
    Custom(u32),
    /// The arguments provided to a program instruction were invalid.
    InvalidArgument,
    /// An instruction's data contents was invalid.
    InvalidInstructionData,
    /// An account's data contents was invalid.
    InvalidAccountData,
    /// A signature was required but not found.
    MissingRequiredSignature,
    /// An initialize instruction was sent to an account that has already been initialized.
    AccountAlreadyInitialized,
    /// An attempt to operate on an account that hasn't been initialized.
    UninitializedAccount,
    /// The instruction expected additional account keys.
    NotEnoughAccountKeys,
    /// The bytes could not be read as a value of the expected type.
    BorshIoError,
    /// An account does not have enough lamports to be rent-exempt.
    AccountNotRentExempt,
    /// Provided owner is not allowed.
    IllegalOwner,
}

/// The program error that an `NFTPassError` becomes.
pub open spec fn program_error_of(e: NFTPassError) -> ProgramError {
    ProgramError::Custom(code_of(e))
}

impl From<NFTPassError> for ProgramError {
    fn from(e: NFTPassError) -> (r: ProgramError) {
        ProgramError::Custom(e.code())
    }
}

impl vstd::std_specs::convert::FromSpecImpl<NFTPassError> for ProgramError {
    open spec fn obeys_from_spec() -> bool {
        true
    }

    open spec fn from_spec(e: NFTPassError) -> ProgramError {
        program_error_of(e)
    }
}

/// A result with its value seen through `View`.
pub open spec fn view_result<T: View>(r: Result<T, ProgramError>) -> Result<T::V, ProgramError> {
    match r {
        Ok(v) => Ok(v@),
        Err(e) => Err(e),
    }
}

/// `e` as a program error.
pub fn fail(e: NFTPassError) -> (r: ProgramError)
    ensures
        r == program_error_of(e),
{
    ProgramError::from(e)
}

} // verus!
