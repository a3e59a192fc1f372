//! Error taxonomy for the authorization engine.
//!
//! Every check is local and terminal: a failed check is surfaced verbatim to
//! the caller with a specific kind and never collapsed into a generic
//! failure. Denial never mutates counters.

use vstd::prelude::*;

verus! {

/// The reason a request was denied or an operation refused.
#[derive(Clone, Copy, PartialEq, Eq, Structural, Debug)]
pub enum HookError {
    // Authorization
    Unauthorized,
    InvalidDidCommitment,
    SessionExpired,
    // Card status
    CardNotActive,
    CardFrozen,
    CardTerminated,
    CardPending,
    // Merchant lists
    MerchantNotWhitelisted,
    MerchantBlocked,
    UnknownMerchant,
    MerchantWhitelistFull,
    MerchantBlocklistFull,
    // Merchant category codes
    MccNotWhitelisted,
    MccBlocked,
    InvalidMccCode,
    MccWhitelistFull,
    MccBlocklistFull,
    // Velocity limits
    TransactionLimitExceeded,
    DailyLimitExceeded,
    WeeklyLimitExceeded,
    MonthlyLimitExceeded,
    DailyTransactionCountExceeded,
    WeeklyTransactionCountExceeded,
    MonthlyTransactionCountExceeded,
    // Policy
    InternationalNotAllowed,
    OnlineNotAllowed,
    AtmNotAllowed,
    ContactlessNotAllowed,
    ContactlessLimitExceeded,
    CountryNotAllowed,
    CountryBlocked,
    // Verification
    BiometricRequired,
    TwoFactorRequired,
    StepUpAuthRequired,
    // Global / system
    GloballyPaused,
    InvalidConfiguration,
    AccountAlreadyExists,
    AccountNotFound,
    InvalidSlot,
    // Arithmetic
    Overflow,
    Underflow,
    DivisionByZero,
    // Confidential transfers
    ConfidentialModeNotEnabled,
    InvalidProofData,
    VelocityProofFailed,
    EncryptedCounterOverflow,
}

} // verus!
