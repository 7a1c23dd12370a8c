use vstd::prelude::*;

verus! {

/// Every way in which an instruction of the sale can be refused.
#[derive(Debug, Clone, Copy, PartialEq, Eq, Structural)]
pub enum PresaleError {
    InvalidAdmin,
    InvalidToken,
    NotEnoughToken,
    PresaleNumberInvalid,
    PresaleNotStarted,
    PresaleEnded,
    PresalePaused,
    InvalidPriceFeed,
    InvalidStableToken,
    InvalidStageNumber,
    StageSoldOut,
    InsufficientPayment,
    InvalidVaultAddress,
    UserNotInitialized,
    GlobalStateNotInitialized,
    InvalidTokenAmount,
    StalePriceFeed,
    InvalidStableCoinAmount,
    PresaleAlreadyEnded,
}

/// The human-readable message of each error.
pub open spec fn error_message(e: PresaleError) -> Seq<char> {
    match e {
        PresaleError::InvalidAdmin => "Admin address mismatch"@,
        PresaleError::InvalidToken => "Token address mismatch"@,
        PresaleError::NotEnoughToken => "Token amount is not enough for all stages"@,
        PresaleError::PresaleNumberInvalid => "Presale stage number is not correct"@,
        PresaleError::PresaleNotStarted => "Presale is not started"@,
        PresaleError::PresaleEnded => "Presale is ended"@,
        PresaleError::PresalePaused => "Presale is paused"@,
        PresaleError::InvalidPriceFeed => "Pyth feed address is not correct"@,
        PresaleError::InvalidStableToken => "Stable token address is not correct"@,
        PresaleError::InvalidStageNumber => "Invalid stage number"@,
        PresaleError::StageSoldOut => "Stage is sold out"@,
        PresaleError::InsufficientPayment => "Insufficient payment amount"@,
        PresaleError::InvalidVaultAddress => "Invalid vault address"@,
        PresaleError::UserNotInitialized => "User state not initialized"@,
        PresaleError::GlobalStateNotInitialized => "Global state not initialized"@,
        PresaleError::InvalidTokenAmount => "Invalid token amount"@,
        PresaleError::StalePriceFeed => "Price feed is stale"@,
        PresaleError::InvalidStableCoinAmount => "Invalid stable coin amount"@,
        PresaleError::PresaleAlreadyEnded => "Presale has already ended"@,
    }
}

impl PresaleError {
    /// The human-readable message of this error.
    pub fn message(&self) -> (r: &'static str)
        ensures
            r@ == error_message(*self),
    {
        match self {
            PresaleError::InvalidAdmin => "Admin address mismatch",
            PresaleError::InvalidToken => "Token address mismatch",
            PresaleError::NotEnoughToken => "Token amount is not enough for all stages",
            PresaleError::PresaleNumberInvalid => "Presale stage number is not correct",
            PresaleError::PresaleNotStarted => "Presale is not started",
            PresaleError::PresaleEnded => "Presale is ended",
            PresaleError::PresalePaused => "Presale is paused",
            PresaleError::InvalidPriceFeed => "Pyth feed address is not correct",
            PresaleError::InvalidStableToken => "Stable token address is not correct",
            PresaleError::InvalidStageNumber => "Invalid stage number",
            PresaleError::StageSoldOut => "Stage is sold out",
            PresaleError::InsufficientPayment => "Insufficient payment amount",
            PresaleError::InvalidVaultAddress => "Invalid vault address",
            PresaleError::UserNotInitialized => "User state not initialized",
            PresaleError::GlobalStateNotInitialized => "Global state not initialized",
            PresaleError::InvalidTokenAmount => "Invalid token amount",
            PresaleError::StalePriceFeed => "Price feed is stale",
            PresaleError::InvalidStableCoinAmount => "Invalid stable coin amount",
            PresaleError::PresaleAlreadyEnded => "Presale has already ended",
        }
    }
}

} // verus!
