use vstd::prelude::*;

verus! {

/// Every way in which an instruction can be refused.
#[derive(Debug, Clone, Copy, PartialEq, Eq, Structural)]
pub enum WrapperError {
    /// The instruction bytes do not decode.
    InvalidInstruction,
    /// An account does not hold enough lamports to be rent exempt.
    NotRentExempt,
    /// The initiating account did not sign.
    MissingSignature,
    /// The program-derived authority is not the one the registry was set up with.
    AuthorityMismatch,
    /// An account is not owned by the program that it must be owned by.
    OwnerMismatch,
    /// The registry was initialized before.
    AlreadyInitialized,
    /// The registry holds as many records as its capacity allows.
    RegistryFull,
    /// No record matches the released triple exactly.
    RecordNotFound,
    /// The event log's buffer has no room for one more entry.
    LogFull,
    /// The token program refused the transfer.
    TransferRejected,
}

impl WrapperError {
    /// The number under which the error is reported to the runtime.
    pub open spec fn spec_code(self) -> u32 {
        match self {
            WrapperError::InvalidInstruction => 0,
            WrapperError::NotRentExempt => 1,
            WrapperError::MissingSignature => 2,
            WrapperError::AuthorityMismatch => 3,
            WrapperError::OwnerMismatch => 4,
            WrapperError::AlreadyInitialized => 5,
            WrapperError::RegistryFull => 6,
            WrapperError::RecordNotFound => 7,
            WrapperError::LogFull => 8,
            WrapperError::TransferRejected => 9,
        }
    }

    pub fn code(&self) -> (r: u32)
        ensures
            r == self.spec_code(),
    {
        match self {
            WrapperError::InvalidInstruction => 0,
            WrapperError::NotRentExempt => 1,
            WrapperError::MissingSignature => 2,
            WrapperError::AuthorityMismatch => 3,
            WrapperError::OwnerMismatch => 4,
            WrapperError::AlreadyInitialized => 5,
            WrapperError::RegistryFull => 6,
            WrapperError::RecordNotFound => 7,
            WrapperError::LogFull => 8,
            WrapperError::TransferRejected => 9,
        }
    }
}

} // verus!
