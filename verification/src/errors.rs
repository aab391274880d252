//! The typed errors of every operation, and the class each one falls in.

use vstd::prelude::*;

verus! {

/// The five classes of failure. None is retried by the engine: a rejected call
/// leaves the state as it was and the caller resubmits.
#[derive(Clone, Copy, Debug, PartialEq, Eq, Structural)]
pub enum ErrorClass {
    /// The input itself is unacceptable: a zero amount, a fee above the cap.
    Validation,
    /// The operation is invalid in the current lifecycle state.
    State,
    /// The caller lacks the required role.
    Authorization,
    /// Overflow or division by zero; always surfaced, never wrapped.
    Arithmetic,
    /// An outside collaborator rejected the operation or gave no usable answer.
    External,
}

/// Why an operation of the launch engine was rejected.
#[derive(Clone, Copy, Debug, PartialEq, Eq, Structural)]
pub enum BoomError {
    /// Token has already exploded.
    AlreadyExploded,
    /// Secret cap has already been set.
    CapAlreadySet,
    /// Invalid cap reveal - hash mismatch.
    InvalidCapReveal,
    /// Presale has been finalized.
    PresaleFinalized,
    /// Presale has not been finalized yet.
    PresaleNotFinalized,
    /// Presale period has ended.
    PresaleEnded,
    /// Presale period has not ended yet.
    PresaleNotEnded,
    /// Deposit amount is below minimum.
    DepositTooSmall,
    /// Deposit amount exceeds maximum.
    DepositTooLarge,
    /// Arithmetic overflow.
    Overflow,
    /// Too many winners specified.
    TooManyWinners,
    /// User is already marked as winner.
    AlreadyWinner,
    /// Winners cannot claim refund.
    WinnerCannotRefund,
    /// Already claimed.
    AlreadyClaimed,
    /// Nothing to refund.
    NothingToRefund,
    /// Not a lottery winner.
    NotAWinner,
    /// Invalid mint for this presale.
    InvalidMint,
    /// Trading has not started yet - explosion timer must be set.
    TradingNotStarted,
    /// Deadline must be in the future.
    DeadlineInPast,
    /// Deadline has already been set.
    DeadlineAlreadySet,
    /// No deadline has been set for this token.
    NoDeadlineSet,
    /// Deadline has not been reached yet.
    DeadlineNotReached,
    /// Presale token has not been created yet.
    TokenNotCreated,
    /// Token has not exploded yet.
    NotExploded,
    /// Price data is stale or unavailable.
    PriceStale,
    /// LP has already been unwound.
    LpAlreadyUnwound,
    /// LP has not been unwound yet.
    LpNotUnwound,
    /// No tokens to claim payout.
    NoTokensToClaim,
    /// Payout amount too small.
    PayoutTooSmall,
    /// Invalid round sequence - must be next after explosion.
    InvalidRoundSequence,
    /// Auto-advance is disabled.
    AutoAdvanceDisabled,
    /// Duration must be positive.
    InvalidDuration,
    /// Fee too high - max 10%.
    FeeTooHigh,
    /// No SOL available for pool creation.
    NoSolForPool,
    /// No tokens deposited for pool creation.
    NoTokensForPool,
    /// Amount must be greater than zero.
    ZeroAmount,
    /// Output amount too small.
    ZeroOutput,
    /// Slippage tolerance exceeded.
    SlippageExceeded,
    /// Invalid vault account.
    InvalidVault,
    /// Insufficient tokens deposited.
    InsufficientDeposit,
    /// Insufficient liquidity in pool.
    InsufficientLiquidity,
    /// Caller lacks the required role.
    Unauthorized,
    /// Liquidity has not been registered for this round.
    LpNotRegistered,
    /// Presale is not open.
    PresaleNotOpen,
    /// Presale is closed to deposits.
    PresaleClosed,
    /// Presale has not been closed yet.
    PresaleNotClosed,
    /// Lottery has not completed yet.
    LotteryNotComplete,
    /// Deposit did not win the lottery.
    NotWinner,
    /// Record belongs to another round.
    RoundMismatch,
    /// Commitment digest is empty.
    EmptyCommitment,
    /// Pool has already been created.
    PoolAlreadyCreated,
    /// Round has already been started.
    RoundAlreadyStarted,
}

impl BoomError {
    /// The class of this error.
    pub open spec fn spec_class(self) -> ErrorClass {
        match self {
            BoomError::InvalidCapReveal
            | BoomError::DepositTooSmall
            | BoomError::DepositTooLarge
            | BoomError::TooManyWinners
            | BoomError::InvalidMint
            | BoomError::DeadlineInPast
            | BoomError::PayoutTooSmall
            | BoomError::InvalidRoundSequence
            | BoomError::InvalidDuration
            | BoomError::FeeTooHigh
            | BoomError::ZeroAmount
            | BoomError::ZeroOutput
            | BoomError::SlippageExceeded
            | BoomError::InvalidVault
            | BoomError::InsufficientDeposit
            | BoomError::RoundMismatch
            | BoomError::EmptyCommitment => ErrorClass::Validation,
            BoomError::AlreadyExploded
            | BoomError::CapAlreadySet
            | BoomError::PoolAlreadyCreated
            | BoomError::RoundAlreadyStarted
            | BoomError::PresaleFinalized
            | BoomError::PresaleNotFinalized
            | BoomError::PresaleEnded
            | BoomError::PresaleNotEnded
            | BoomError::AlreadyWinner
            | BoomError::AlreadyClaimed
            | BoomError::NothingToRefund
            | BoomError::TradingNotStarted
            | BoomError::DeadlineAlreadySet
            | BoomError::NoDeadlineSet
            | BoomError::DeadlineNotReached
            | BoomError::TokenNotCreated
            | BoomError::NotExploded
            | BoomError::LpAlreadyUnwound
            | BoomError::LpNotUnwound
            | BoomError::NoTokensToClaim
            | BoomError::AutoAdvanceDisabled
            | BoomError::NoSolForPool
            | BoomError::NoTokensForPool
            | BoomError::InsufficientLiquidity
            | BoomError::LpNotRegistered
            | BoomError::PresaleNotOpen
            | BoomError::PresaleClosed
            | BoomError::PresaleNotClosed
            | BoomError::LotteryNotComplete => ErrorClass::State,
            BoomError::WinnerCannotRefund
            | BoomError::NotAWinner
            | BoomError::Unauthorized
            | BoomError::NotWinner => ErrorClass::Authorization,
            BoomError::Overflow => ErrorClass::Arithmetic,
            BoomError::PriceStale => ErrorClass::External,
        }
    }

    /// The class of this error.
    #[verifier::when_used_as_spec(spec_class)]
    pub fn class(self) -> (c: ErrorClass)
        ensures
            c == self.spec_class(),
    {
        match self {
            BoomError::InvalidCapReveal
            | BoomError::DepositTooSmall
            | BoomError::DepositTooLarge
            | BoomError::TooManyWinners
            | BoomError::InvalidMint
            | BoomError::DeadlineInPast
            | BoomError::PayoutTooSmall
            | BoomError::InvalidRoundSequence
            | BoomError::InvalidDuration
            | BoomError::FeeTooHigh
            | BoomError::ZeroAmount
            | BoomError::ZeroOutput
            | BoomError::SlippageExceeded
            | BoomError::InvalidVault
            | BoomError::InsufficientDeposit
            | BoomError::RoundMismatch
            | BoomError::EmptyCommitment => ErrorClass::Validation,
            BoomError::AlreadyExploded
            | BoomError::CapAlreadySet
            | BoomError::PoolAlreadyCreated
            | BoomError::RoundAlreadyStarted
            | BoomError::PresaleFinalized
            | BoomError::PresaleNotFinalized
            | BoomError::PresaleEnded
            | BoomError::PresaleNotEnded
            | BoomError::AlreadyWinner
            | BoomError::AlreadyClaimed
            | BoomError::NothingToRefund
            | BoomError::TradingNotStarted
            | BoomError::DeadlineAlreadySet
            | BoomError::NoDeadlineSet
            | BoomError::DeadlineNotReached
            | BoomError::TokenNotCreated
            | BoomError::NotExploded
            | BoomError::LpAlreadyUnwound
            | BoomError::LpNotUnwound
            | BoomError::NoTokensToClaim
            | BoomError::AutoAdvanceDisabled
            | BoomError::NoSolForPool
            | BoomError::NoTokensForPool
            | BoomError::InsufficientLiquidity
            | BoomError::LpNotRegistered
            | BoomError::PresaleNotOpen
            | BoomError::PresaleClosed
            | BoomError::PresaleNotClosed
            | BoomError::LotteryNotComplete => ErrorClass::State,
            BoomError::WinnerCannotRefund
            | BoomError::NotAWinner
            | BoomError::Unauthorized
            | BoomError::NotWinner => ErrorClass::Authorization,
            BoomError::Overflow => ErrorClass::Arithmetic,
            BoomError::PriceStale => ErrorClass::External,
        }
    }

    /// The message shown to the caller.
    pub open spec fn spec_message(self) -> Seq<char> {
        match self {
            BoomError::AlreadyExploded => "Token has already exploded"@,
            BoomError::CapAlreadySet => "Secret cap has already been set"@,
            BoomError::InvalidCapReveal => "Invalid cap reveal - hash mismatch"@,
            BoomError::PresaleFinalized => "Presale has been finalized"@,
            BoomError::PresaleNotFinalized => "Presale has not been finalized yet"@,
            BoomError::PresaleEnded => "Presale period has ended"@,
            BoomError::PresaleNotEnded => "Presale period has not ended yet"@,
            BoomError::DepositTooSmall => "Deposit amount is below minimum"@,
            BoomError::DepositTooLarge => "Deposit amount exceeds maximum"@,
            BoomError::Overflow => "Arithmetic overflow"@,
            BoomError::TooManyWinners => "Too many winners specified"@,
            BoomError::AlreadyWinner => "User is already marked as winner"@,
            BoomError::WinnerCannotRefund => "Winners cannot claim refund"@,
            BoomError::AlreadyClaimed => "Already claimed"@,
            BoomError::NothingToRefund => "Nothing to refund"@,
            BoomError::NotAWinner => "Not a lottery winner"@,
            BoomError::InvalidMint => "Invalid mint for this presale"@,
            BoomError::TradingNotStarted => "Trading has not started yet - explosion timer must be set"@,
            BoomError::DeadlineInPast => "Deadline must be in the future"@,
            BoomError::DeadlineAlreadySet => "Deadline has already been set"@,
            BoomError::NoDeadlineSet => "No deadline has been set for this token"@,
            BoomError::DeadlineNotReached => "Deadline has not been reached yet"@,
            BoomError::TokenNotCreated => "Presale token has not been created yet"@,
            BoomError::NotExploded => "Token has not exploded yet"@,
            BoomError::PriceStale => "Price data is stale or unavailable"@,
            BoomError::LpAlreadyUnwound => "LP has already been unwound"@,
            BoomError::LpNotUnwound => "LP has not been unwound yet"@,
            BoomError::NoTokensToClaim => "No tokens to claim payout"@,
            BoomError::PayoutTooSmall => "Payout amount too small"@,
            BoomError::InvalidRoundSequence => "Invalid round sequence - must be next after explosion"@,
            BoomError::AutoAdvanceDisabled => "Auto-advance is disabled"@,
            BoomError::InvalidDuration => "Duration must be positive"@,
            BoomError::FeeTooHigh => "Fee too high - max 10%"@,
            BoomError::NoSolForPool => "No SOL available for pool creation"@,
            BoomError::NoTokensForPool => "No tokens deposited for pool creation"@,
            BoomError::ZeroAmount => "Amount must be greater than zero"@,
            BoomError::ZeroOutput => "Output amount too small"@,
            BoomError::SlippageExceeded => "Slippage tolerance exceeded"@,
            BoomError::InvalidVault => "Invalid vault account"@,
            BoomError::InsufficientDeposit => "Insufficient tokens deposited"@,
            BoomError::InsufficientLiquidity => "Insufficient liquidity in pool"@,
            BoomError::Unauthorized => "Caller lacks the required role"@,
            BoomError::LpNotRegistered => "Liquidity has not been registered for this round"@,
            BoomError::PresaleNotOpen => "Presale is not open"@,
            BoomError::PresaleClosed => "Presale is closed to deposits"@,
            BoomError::PresaleNotClosed => "Presale has not been closed yet"@,
            BoomError::LotteryNotComplete => "Lottery has not completed yet"@,
            BoomError::NotWinner => "Deposit did not win the lottery"@,
            BoomError::RoundMismatch => "Record belongs to another round"@,
            BoomError::EmptyCommitment => "Commitment digest is empty"@,
            BoomError::PoolAlreadyCreated => "Pool has already been created"@,
            BoomError::RoundAlreadyStarted => "Round has already been started"@,
        }
    }

    /// The message shown to the caller.
    pub fn message(self) -> (m: &'static str)
        ensures
            m@ == self.spec_message(),
    {
        match self {
            BoomError::AlreadyExploded => "Token has already exploded",
            BoomError::CapAlreadySet => "Secret cap has already been set",
            BoomError::InvalidCapReveal => "Invalid cap reveal - hash mismatch",
            BoomError::PresaleFinalized => "Presale has been finalized",
            BoomError::PresaleNotFinalized => "Presale has not been finalized yet",
            BoomError::PresaleEnded => "Presale period has ended",
            BoomError::PresaleNotEnded => "Presale period has not ended yet",
            BoomError::DepositTooSmall => "Deposit amount is below minimum",
            BoomError::DepositTooLarge => "Deposit amount exceeds maximum",
            BoomError::Overflow => "Arithmetic overflow",
            BoomError::TooManyWinners => "Too many winners specified",
            BoomError::AlreadyWinner => "User is already marked as winner",
            BoomError::WinnerCannotRefund => "Winners cannot claim refund",
            BoomError::AlreadyClaimed => "Already claimed",
            BoomError::NothingToRefund => "Nothing to refund",
            BoomError::NotAWinner => "Not a lottery winner",
            BoomError::InvalidMint => "Invalid mint for this presale",
            BoomError::TradingNotStarted => "Trading has not started yet - explosion timer must be set",
            BoomError::DeadlineInPast => "Deadline must be in the future",
            BoomError::DeadlineAlreadySet => "Deadline has already been set",
            BoomError::NoDeadlineSet => "No deadline has been set for this token",
            BoomError::DeadlineNotReached => "Deadline has not been reached yet",
            BoomError::TokenNotCreated => "Presale token has not been created yet",
            BoomError::NotExploded => "Token has not exploded yet",
            BoomError::PriceStale => "Price data is stale or unavailable",
            BoomError::LpAlreadyUnwound => "LP has already been unwound",
            BoomError::LpNotUnwound => "LP has not been unwound yet",
            BoomError::NoTokensToClaim => "No tokens to claim payout",
            BoomError::PayoutTooSmall => "Payout amount too small",
            BoomError::InvalidRoundSequence => "Invalid round sequence - must be next after explosion",
            BoomError::AutoAdvanceDisabled => "Auto-advance is disabled",
            BoomError::InvalidDuration => "Duration must be positive",
            BoomError::FeeTooHigh => "Fee too high - max 10%",
            BoomError::NoSolForPool => "No SOL available for pool creation",
            BoomError::NoTokensForPool => "No tokens deposited for pool creation",
            BoomError::ZeroAmount => "Amount must be greater than zero",
            BoomError::ZeroOutput => "Output amount too small",
            BoomError::SlippageExceeded => "Slippage tolerance exceeded",
            BoomError::InvalidVault => "Invalid vault account",
            BoomError::InsufficientDeposit => "Insufficient tokens deposited",
            BoomError::InsufficientLiquidity => "Insufficient liquidity in pool",
            BoomError::Unauthorized => "Caller lacks the required role",
            BoomError::LpNotRegistered => "Liquidity has not been registered for this round",
            BoomError::PresaleNotOpen => "Presale is not open",
            BoomError::PresaleClosed => "Presale is closed to deposits",
            BoomError::PresaleNotClosed => "Presale has not been closed yet",
            BoomError::LotteryNotComplete => "Lottery has not completed yet",
            BoomError::NotWinner => "Deposit did not win the lottery",
            BoomError::RoundMismatch => "Record belongs to another round",
            BoomError::EmptyCommitment => "Commitment digest is empty",
            BoomError::PoolAlreadyCreated => "Pool has already been created",
            BoomError::RoundAlreadyStarted => "Round has already been started",
        }
    }
}

/// Why the transfer gate blocked a movement.
#[derive(Clone, Copy, Debug, PartialEq, Eq, Structural)]
pub enum HookError {
    /// Transfer to non-whitelisted pool is blocked. Only official LP allowed.
    TransferToPoolBlocked,
    /// All transfers are currently disabled by protocol
    TransfersDisabled,
    /// Trading not enabled yet - LP must be whitelisted first
    TradingNotEnabled,
}

impl HookError {
    /// The message shown to the caller.
    pub open spec fn spec_message(self) -> Seq<char> {
        match self {
            HookError::TransferToPoolBlocked => "Transfer to non-whitelisted pool is blocked. Only official LP allowed."@,
            HookError::TransfersDisabled => "All transfers are currently disabled by protocol"@,
            HookError::TradingNotEnabled => "Trading not enabled yet - LP must be whitelisted first"@,
        }
    }

    /// The message shown to the caller.
    pub fn message(self) -> (m: &'static str)
        ensures
            m@ == self.spec_message(),
    {
        match self {
            HookError::TransferToPoolBlocked => "Transfer to non-whitelisted pool is blocked. Only official LP allowed.",
            HookError::TransfersDisabled => "All transfers are currently disabled by protocol",
            HookError::TradingNotEnabled => "Trading not enabled yet - LP must be whitelisted first",
        }
    }
}

/// Why a randomness request could not be used.
#[derive(Clone, Copy, Debug, PartialEq, Eq, Structural)]
pub enum VrfError {
    /// VRF result not yet available.
    VrfNotFulfilled,
    /// VRF request already fulfilled.
    VrfAlreadyFulfilled,
    /// Invalid VRF account.
    InvalidVrfAccount,
    /// VRF request timeout.
    VrfTimeout,
}

impl VrfError {
    /// The message shown to the caller.
    pub open spec fn spec_message(self) -> Seq<char> {
        match self {
            VrfError::VrfNotFulfilled => "VRF result not yet available"@,
            VrfError::VrfAlreadyFulfilled => "VRF request already fulfilled"@,
            VrfError::InvalidVrfAccount => "Invalid VRF account"@,
            VrfError::VrfTimeout => "VRF request timeout"@,
        }
    }

    /// The message shown to the caller.
    pub fn message(self) -> (m: &'static str)
        ensures
            m@ == self.spec_message(),
    {
        match self {
            VrfError::VrfNotFulfilled => "VRF result not yet available",
            VrfError::VrfAlreadyFulfilled => "VRF request already fulfilled",
            VrfError::InvalidVrfAccount => "Invalid VRF account",
            VrfError::VrfTimeout => "VRF request timeout",
        }
    }
}

} // verus!
