use vstd::prelude::*;

use crate::math::ArithmeticError;
use crate::program_error::ProgramError;

verus! {

/// The error codes of the rollup auction program.
#[derive(Clone, Copy, Debug, PartialEq, Eq, Structural)]
pub enum ErrorCode {
    /// Invalid raise range: min must be <= max
    InvalidRaiseRange,
    /// Invalid supply range: min must be <= max
    InvalidSupplyRange,
    /// Invalid FDV range: min must be <= max
    InvalidFdvRange,
    /// Invalid timing: start must be < end
    InvalidTiming,
    /// Commitment window must be at least 15 minutes
    CommitmentWindowTooShort,
    /// Invalid timestamps
    InvalidTimestamps,
    /// Invalid parameters
    InvalidParameters,
    /// Sale is not active
    SaleNotActive,
    /// Sale not initialized
    SaleNotInitialized,
    /// Sale not settled
    SaleNotSettled,
    /// Sale is not in correct status for this operation
    InvalidSaleStatus,
    /// Outside commitment window
    OutsideCommitmentWindow,
    /// Commitment window closed
    CommitmentWindowClosed,
    /// Commitment window has not ended yet
    CommitmentWindowNotEnded,
    /// Sale has not been cancelled
    SaleNotCancelled,
    /// Invalid amount
    InvalidAmount,
    /// Insufficient funds
    InsufficientFunds,
    /// Insufficient tokens
    InsufficientTokens,
    /// Invalid score
    InvalidScore,
    /// Invalid merkle proof
    InvalidMerkleProof,
    /// Invalid score proof
    InvalidScoreProof,
    /// No clearing price found
    NoClearingPriceFound,
    /// Insufficient demand
    InsufficientDemand,
    /// Invalid clearing FDV - must be within sale FDV range
    InvalidClearingFdv,
    /// Invalid marginal allocation
    InvalidMarginalAllocation,
    /// Invalid fill rate - must be between 1 and 10000 basis points
    InvalidFillRate,
    /// Already processed
    AlreadyProcessed,
    /// Already verified
    AlreadyVerified,
    /// Wrong status
    WrongStatus,
    /// Verification incomplete - not all users verified
    VerificationIncomplete,
    /// Invalid running sum - settlement proposal incorrect
    InvalidRunningSum,
    /// Running sum exceeds raise_max - over-allocation detected
    RunningSumExceedsMax,
    /// Sale undersubscribed - running_sum below raise_min
    RunningSumBelowMin,
    /// Already claimed
    AlreadyClaimed,
    /// Cannot cancel settled sale
    CannotCancelSettledSale,
    /// Cannot cancel during verification
    CannotCancelDuringVerification,
    /// Arithmetic overflow
    ArithmeticOverflow,
    /// Division by zero
    DivisionByZero,
    /// Batch size exceeds maximum allowed
    BatchSizeTooLarge,
    /// Batch cannot be empty
    BatchEmpty,
    /// Maximum user capacity exceeded for this sale
    CapacityExceeded,
    /// Bid not yet submitted
    BidNotSubmitted,
    /// Bid already submitted
    BidAlreadySubmitted,
    /// Settlement not yet computed
    SettlementNotComputed,
    /// Bids not yet zeroed
    BidsNotZeroed,
    /// Max FDV out of range
    MaxFdvOutOfRange,
    /// Unauthorized - only authority can perform this action
    Unauthorized,
}

/// How an instruction of the rollup auction fails.
pub type Error = ProgramError<ErrorCode>;

/// The error code that stands for an arithmetic failure.
pub open spec fn arithmetic_code(e: ArithmeticError) -> ErrorCode {
    match e {
        ArithmeticError::ArithmeticOverflow => ErrorCode::ArithmeticOverflow,
        ArithmeticError::DivisionByZero => ErrorCode::DivisionByZero,
    }
}

impl ErrorCode {
    /// The error code that stands for an arithmetic failure.
    pub fn from_arithmetic(e: ArithmeticError) -> (c: ErrorCode)
        ensures
            c == arithmetic_code(e),
    {
        match e {
            ArithmeticError::ArithmeticOverflow => ErrorCode::ArithmeticOverflow,
            ArithmeticError::DivisionByZero => ErrorCode::DivisionByZero,
        }
    }
}

/// A program error with the given code.
pub open spec fn fail(code: ErrorCode) -> Error {
    ProgramError::Custom(code)
}

} // verus!
