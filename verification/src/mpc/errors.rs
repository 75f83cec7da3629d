use vstd::prelude::*;

use crate::math::ArithmeticError;
use crate::program_error::ProgramError;

verus! {

/// The error codes of the MPC auction program.
#[derive(Clone, Copy, Debug, PartialEq, Eq, Structural)]
pub enum ErrorCode {
    /// Invalid raise range: min must be <= max
    InvalidRaiseRange,
    /// Invalid supply range: min must be <= max
    InvalidSupplyRange,
    /// Invalid FDV range: min must be <= max
    InvalidFdvRange,
    /// Invalid timing: start must be < end
    InvalidTiming,
    /// Commitment window must be at least 15 minutes
    CommitmentWindowTooShort,
    /// Invalid timestamps
    InvalidTimestamps,
    /// Invalid parameters
    InvalidParameters,
    /// Sale is not active
    SaleNotActive,
    /// Sale not initialized
    SaleNotInitialized,
    /// Sale not settled
    SaleNotSettled,
    /// Sale is not in correct status for this operation
    InvalidSaleStatus,
    /// Outside commitment window
    OutsideCommitmentWindow,
    /// Commitment window closed
    CommitmentWindowClosed,
    /// Commitment window has not ended yet
    CommitmentWindowNotEnded,
    /// Sale has not been cancelled
    SaleNotCancelled,
    /// Invalid amount
    InvalidAmount,
    /// Insufficient funds
    InsufficientFunds,
    /// Insufficient tokens
    InsufficientTokens,
    /// Invalid score
    InvalidScore,
    /// Invalid merkle proof
    InvalidMerkleProof,
    /// Invalid score proof
    InvalidScoreProof,
    /// Arcium computation failed
    ArciumComputationFailed,
    /// Arcium settlement not received
    ArciumSettlementNotReceived,
    /// Bid not checked by MPC yet
    BidNotChecked,
    /// Arcium cluster not set
    ClusterNotSet,
    /// No clearing price found
    NoClearingPriceFound,
    /// Insufficient demand
    InsufficientDemand,
    /// Invalid clearing FDV - must be within sale FDV range
    InvalidClearingFdv,
    /// Invalid fill rate - must be between 1 and 10000 basis points
    InvalidFillRate,
    /// Already processed
    AlreadyProcessed,
    /// Already verified
    AlreadyVerified,
    /// Wrong status
    WrongStatus,
    /// Already claimed
    AlreadyClaimed,
    /// Cannot cancel settled sale
    CannotCancelSettledSale,
    /// Arithmetic overflow
    ArithmeticOverflow,
    /// Division by zero
    DivisionByZero,
    /// Maximum user capacity exceeded for this sale
    CapacityExceeded,
    /// Encrypted bid required for this sale
    EncryptedBidRequired,
    /// Commitment window not closed
    CommitmentWindowNotClosed,
    /// Batch size exceeds maximum allowed
    BatchSizeTooLarge,
    /// Batch cannot be empty
    BatchEmpty,
    /// Chunk too large
    ChunkTooLarge,
    /// Invalid bucket count: must be between 1 and 200
    InvalidBucketCount,
}

/// How an instruction of the MPC auction fails.
pub type Error = ProgramError<ErrorCode>;

/// The error code that stands for an arithmetic failure.
pub open spec fn arithmetic_code(e: ArithmeticError) -> ErrorCode {
    match e {
        ArithmeticError::ArithmeticOverflow => ErrorCode::ArithmeticOverflow,
        ArithmeticError::DivisionByZero => ErrorCode::DivisionByZero,
    }
}

impl ErrorCode {
    /// The error code that stands for an arithmetic failure.
    pub fn from_arithmetic(e: ArithmeticError) -> (c: ErrorCode)
        ensures
            c == arithmetic_code(e),
    {
        match e {
            ArithmeticError::ArithmeticOverflow => ErrorCode::ArithmeticOverflow,
            ArithmeticError::DivisionByZero => ErrorCode::DivisionByZero,
        }
    }
}

/// A program error with the given code.
pub open spec fn fail(code: ErrorCode) -> Error {
    ProgramError::Custom(code)
}

} // verus!
