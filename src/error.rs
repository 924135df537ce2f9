use vstd::prelude::*;

verus! {

/// Errors that belong to the escrow program itself.
#[derive(Clone, Copy, Debug, PartialEq, Eq, Structural)]
pub enum EscrowError {
    /// The instruction bytes are malformed or unrecognized.
    InvalidInstruction,
    /// The storage account's balance does not keep it rent-exempt.
    NotRentExempt,
}

impl EscrowError {
    /// The program's custom error code for this error.
    pub fn code(&self) -> (r: u32)
        ensures
            r == match self {
                EscrowError::InvalidInstruction => 0u32,
                EscrowError::NotRentExempt => 1u32,
            },
    {
        match self {
            EscrowError::InvalidInstruction => 0,
            EscrowError::NotRentExempt => 1,
        }
    }

    /// A short description of the error, for logs.
    pub fn message(&self) -> (r: &'static str)
        ensures
            r@ == match self {
                EscrowError::InvalidInstruction => "Invalid Instruction"@,
                EscrowError::NotRentExempt => "Not rent exempt"@,
            },
    {
        match self {
            EscrowError::InvalidInstruction => "Invalid Instruction",
            EscrowError::NotRentExempt => "Not rent exempt",
        }
    }
}

/// Every way an invocation of the program can fail.
#[derive(Clone, Copy, Debug, PartialEq, Eq, Structural)]
pub enum ProcessError {
    /// An error of the escrow program itself.
    Custom(EscrowError),
    /// The initializer did not sign.
    MissingRequiredSignature,
    /// An account is not owned by, or is not, the expected program.
    IncorrectProgramId,
    /// The storage account's bytes are not a valid escrow record.
    InvalidAccountData,
    /// The rent sysvar account could not be read.
    InvalidArgument,
    /// Fewer accounts were passed than the instruction consumes.
    NotEnoughAccountKeys,
    /// No bump seed gives a program-derived address for the seed.
    ProgramAddressNotFound,
}

} // verus!
