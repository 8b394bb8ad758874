use vstd::prelude::*;

verus! {

/// The ways an operation of the ledger can fail. Every failure leaves the
/// ledger unchanged.
#[derive(Clone, Copy, Debug, PartialEq, Eq, Structural)]
pub enum CrowdfundingError {
    CampaignNotFound,
    InvalidTitle,
    InvalidGoal,
    InvalidDeadline,
    CampaignAlreadyExists,
    InvalidDonationAmount,
    CampaignExpired,
    CampaignAlreadyFunded,
    TokenTransferFailed,
    InsufficientBalance,
    NotInitialized,
    InvalidFee,
    ContractAlreadyInitialized,
    ContractPaused,
    ContractAlreadyPaused,
    ContractAlreadyUnpaused,
    Unauthorized,
    PoolNotFound,
    PoolAlreadyExists,
    InvalidPoolName,
    InvalidPoolTarget,
    InvalidPoolDeadline,
    InvalidPoolState,
    InvalidMetadata,
    InvalidMultiSigConfig,
    InvalidSignerCount,
    InvalidAmount,
    RefundNotAvailable,
    PoolNotExpired,
    PoolAlreadyDisbursed,
    RefundGracePeriodNotPassed,
    NoContributionToRefund,
    PoolAlreadyClosed,
    PoolNotDisbursedOrRefunded,
    EmergencyWithdrawalAlreadyRequested,
    EmergencyWithdrawalNotRequested,
    EmergencyWithdrawalPeriodNotPassed,
    /// A total or a count would leave the range of its integer type.
    ArithmeticOverflow,
}

} // verus!
