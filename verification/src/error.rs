//! Errors returned by the marketplace operations.
//!
//! Every operation either succeeds in full or aborts with exactly one of
//! these codes and no effect on any record.

use vstd::prelude::*;

verus! {

#[derive(Clone, Copy, PartialEq, Eq, Structural, Debug)]
pub enum ErrorCode {
    /// Name string variable is longer than allowed.
    NameIsTooLong,
    /// Description string variable is longer than allowed.
    DescriptionIsTooLong,
    /// Provided supply is gt than available.
    SupplyIsGtThanAvailable,
    /// Supply is not provided.
    SupplyIsNotProvided,
    /// Derived key invalid.
    DerivedKeyInvalid,
    /// PublicKey mismatch.
    PublicKeyMismatch,
    /// Pieces in one wallet cannot be greater than Max Supply value.
    PiecesInOneWalletIsTooMuch,
    /// StartDate cannot be in the past.
    StartDateIsInPast,
    /// EndDate should not be earlier than StartDate.
    EndDateIsEarlierThanBeginDate,
    /// Market is not started.
    MarketIsNotStarted,
    /// Market is ended.
    MarketIsEnded,
    /// User reach buy limit.
    UserReachBuyLimit,
    /// Math overflow.
    MathOverflow,
    /// Supply is gt than max supply.
    SupplyIsGtThanMaxSupply,
    /// Market duration is not unlimited.
    MarketDurationIsNotUnlimited,
    /// Market is immutable.
    MarketIsImmutable,
    /// Market in invalid state.
    MarketInInvalidState,
    /// Price is zero.
    PriceIsZero,
    /// Funder is invalid.
    FunderIsInvalid,
    /// Payout ticket exists.
    PayoutTicketExists,
    /// Funder provided invalid destination.
    InvalidFunderDestination,
    /// Treasury is not empty.
    TreasuryIsNotEmpty,
    /// Selling resource already taken by other market.
    SellingResourceAlreadyTaken,
    /// Metadata creators is empty.
    MetadataCreatorsIsEmpty,
    /// User wallet must match user token account.
    UserWalletMustMatchUserTokenAccount,
    /// Metadata should be mutable.
    MetadataShouldBeMutable,
    /// Primary sale is not allowed.
    PrimarySaleIsNotAllowed,
    /// Creators is gt than allowed.
    CreatorsIsGtThanAvailable,
    /// Creators is empty.
    CreatorsIsEmpty,
    /// Market owner doesn't receive shares at primary sale.
    MarketOwnerDoesntHaveShares,
    /// Primary metadata creators not provided.
    PrimaryMetadataCreatorsNotProvided,
    /// Invalid selling resource owner provided.
    SellingResourceOwnerInvalid,
}

impl ErrorCode {
    /// The human-readable description of the error.
    pub fn message(&self) -> &'static str {
        match self {
            ErrorCode::NameIsTooLong => "Name string variable is longer than allowed",
            ErrorCode::DescriptionIsTooLong => "Description string variable is longer than allowed",
            ErrorCode::SupplyIsGtThanAvailable => "Provided supply is gt than available",
            ErrorCode::SupplyIsNotProvided => "Supply is not provided",
            ErrorCode::DerivedKeyInvalid => "Derived key invalid",
            ErrorCode::PublicKeyMismatch => "PublicKey mismatch",
            ErrorCode::PiecesInOneWalletIsTooMuch => "Pieces in one wallet cannot be greater than Max Supply value",
            ErrorCode::StartDateIsInPast => "StartDate cannot be in the past",
            ErrorCode::EndDateIsEarlierThanBeginDate => "EndDate should not be earlier than StartDate",
            ErrorCode::MarketIsNotStarted => "Market is not started",
            ErrorCode::MarketIsEnded => "Market is ended",
            ErrorCode::UserReachBuyLimit => "User reach buy limit",
            ErrorCode::MathOverflow => "Math overflow",
            ErrorCode::SupplyIsGtThanMaxSupply => "Supply is gt than max supply",
            ErrorCode::MarketDurationIsNotUnlimited => "Market duration is not unlimited",
            ErrorCode::MarketIsImmutable => "Market is immutable",
            ErrorCode::MarketInInvalidState => "Market in invalid state",
            ErrorCode::PriceIsZero => "Price is zero",
            ErrorCode::FunderIsInvalid => "Funder is invalid",
            ErrorCode::PayoutTicketExists => "Payout ticket exists",
            ErrorCode::InvalidFunderDestination => "Funder provided invalid destination",
            ErrorCode::TreasuryIsNotEmpty => "Treasury is not empty",
            ErrorCode::SellingResourceAlreadyTaken => "Selling resource already taken by other market",
            ErrorCode::MetadataCreatorsIsEmpty => "Metadata creators is empty",
            ErrorCode::UserWalletMustMatchUserTokenAccount => "User wallet must match user token account",
            ErrorCode::MetadataShouldBeMutable => "Metadata should be mutable",
            ErrorCode::PrimarySaleIsNotAllowed => "Primary sale is not allowed",
            ErrorCode::CreatorsIsGtThanAvailable => "Creators is gt than allowed",
            ErrorCode::CreatorsIsEmpty => "Creators is empty",
            ErrorCode::MarketOwnerDoesntHaveShares => "Market owner doesn't receive shares at primary sale",
            ErrorCode::PrimaryMetadataCreatorsNotProvided => "Primary metadata creators not provided",
            ErrorCode::SellingResourceOwnerInvalid => "Invalid selling resource owner provided",
        }
    }
}

} // verus!
