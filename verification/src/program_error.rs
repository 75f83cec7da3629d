use vstd::prelude::*;

verus! {

/// Why an instruction fails: a program-defined error code, or one of the account checks
/// that the framework performs before or during the instruction.
#[derive(Clone, Copy, Debug, PartialEq, Eq, Structural)]
pub enum ProgramError<E> {
    /// An error code of the program.
    Custom(E),
    /// A `has_one` check found a signer other than the key stored in the account.
    ConstraintHasOne,
    /// An account handed to the instruction is owned by another program.
    AccountOwnedByWrongProgram,
    /// An account handed to the instruction could not be read as the expected type.
    AccountDidNotDeserialize,
    /// No program-derived address exists for the seeds; the runtime aborts the transaction.
    ProgramAddressNotFound,
    /// An account handed to the instruction is owned by the system program and holds no
    /// lamports.
    AccountNotInitialized,
    /// An account's data is too short to hold a type discriminator.
    AccountDiscriminatorNotFound,
    /// An account's data starts with the discriminator of another type.
    AccountDiscriminatorMismatch,
}

/// How the data of an account fails to read as the expected type.
#[derive(Clone, Copy, Debug, PartialEq, Eq, Structural)]
pub enum AccountDataError {
    /// Shorter than a discriminator.
    DiscriminatorNotFound,
    /// Another type's discriminator.
    DiscriminatorMismatch,
    /// The right discriminator, but the rest does not decode.
    DidNotDeserialize,
}

/// The program error for an account whose data does not read as the expected type.
pub open spec fn data_error<E>(e: AccountDataError) -> ProgramError<E> {
    match e {
        AccountDataError::DiscriminatorNotFound => ProgramError::AccountDiscriminatorNotFound,
        AccountDataError::DiscriminatorMismatch => ProgramError::AccountDiscriminatorMismatch,
        AccountDataError::DidNotDeserialize => ProgramError::AccountDidNotDeserialize,
    }
}

/// The program error for an account whose data does not read as the expected type.
pub fn from_data_error<E>(e: AccountDataError) -> (r: ProgramError<E>)
    ensures
        r == data_error::<E>(e),
{
    match e {
        AccountDataError::DiscriminatorNotFound => ProgramError::AccountDiscriminatorNotFound,
        AccountDataError::DiscriminatorMismatch => ProgramError::AccountDiscriminatorMismatch,
        AccountDataError::DidNotDeserialize => ProgramError::AccountDidNotDeserialize,
    }
}

} // verus!
