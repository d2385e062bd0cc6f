use vstd::prelude::*;

verus! {

/// Why an instruction was refused, with the numeric code reported for it: the
/// framework's codes, and the system program's custom code for an account in use.
#[derive(Debug, Clone, Copy, PartialEq, Eq, Structural)]
pub enum PayrollError {
    /// The instruction data is shorter than its 8-byte tag.
    InstructionMissing,
    /// The instruction tag names no instruction of this program.
    InstructionFallbackNotFound,
    /// The instruction arguments could not be decoded.
    InstructionDidNotDeserialize,
    /// An account that must be writable was passed read-only.
    ConstraintMut,
    /// An account that must sign did not.
    ConstraintSigner,
    /// An account address does not match the address derived from its seeds.
    ConstraintSeeds,
    /// The account data is shorter than its 8-byte discriminator.
    AccountDiscriminatorNotFound,
    /// The account data starts with the discriminator of another account type.
    AccountDiscriminatorMismatch,
    /// The account data after the discriminator is not a valid record.
    AccountDidNotDeserialize,
    /// The record does not fit the account's allocated space.
    AccountDidNotSerialize,
    /// Fewer accounts were passed than the instruction takes.
    AccountNotEnoughKeys,
    /// The account is owned by another program.
    AccountOwnedByWrongProgram,
    /// A program account has another address than expected.
    InvalidProgramId,
    /// A program account is not executable.
    InvalidProgramExecutable,
    /// A signer account did not sign.
    AccountNotSigner,
    /// The account holds no lamports and belongs to the system program.
    AccountNotInitialized,
    /// The instruction was sent to another program than this one.
    DeclaredProgramIdMismatch,
    /// The payer of a new account is that account itself.
    TryingToInitPayerAsProgramAccount,
    /// An account to be created is already in use: it holds data or has an owner.
    AccountAlreadyInUse,
}

impl PayrollError {
    pub open spec fn spec_code(self) -> u32 {
        match self {
            PayrollError::InstructionMissing => 100,
            PayrollError::InstructionFallbackNotFound => 101,
            PayrollError::InstructionDidNotDeserialize => 102,
            PayrollError::ConstraintMut => 2000,
            PayrollError::ConstraintSigner => 2002,
            PayrollError::ConstraintSeeds => 2006,
            PayrollError::AccountDiscriminatorNotFound => 3001,
            PayrollError::AccountDiscriminatorMismatch => 3002,
            PayrollError::AccountDidNotDeserialize => 3003,
            PayrollError::AccountDidNotSerialize => 3004,
            PayrollError::AccountNotEnoughKeys => 3005,
            PayrollError::AccountOwnedByWrongProgram => 3007,
            PayrollError::InvalidProgramId => 3008,
            PayrollError::InvalidProgramExecutable => 3009,
            PayrollError::AccountNotSigner => 3010,
            PayrollError::AccountNotInitialized => 3012,
            PayrollError::DeclaredProgramIdMismatch => 4100,
            PayrollError::TryingToInitPayerAsProgramAccount => 4101,
            PayrollError::AccountAlreadyInUse => 0,
        }
    }

    /// The numeric error code.
    pub fn code(&self) -> (r: u32)
        ensures
            r == self.spec_code(),
    {
        match self {
            PayrollError::InstructionMissing => 100,
            PayrollError::InstructionFallbackNotFound => 101,
            PayrollError::InstructionDidNotDeserialize => 102,
            PayrollError::ConstraintMut => 2000,
            PayrollError::ConstraintSigner => 2002,
            PayrollError::ConstraintSeeds => 2006,
            PayrollError::AccountDiscriminatorNotFound => 3001,
            PayrollError::AccountDiscriminatorMismatch => 3002,
            PayrollError::AccountDidNotDeserialize => 3003,
            PayrollError::AccountDidNotSerialize => 3004,
            PayrollError::AccountNotEnoughKeys => 3005,
            PayrollError::AccountOwnedByWrongProgram => 3007,
            PayrollError::InvalidProgramId => 3008,
            PayrollError::InvalidProgramExecutable => 3009,
            PayrollError::AccountNotSigner => 3010,
            PayrollError::AccountNotInitialized => 3012,
            PayrollError::DeclaredProgramIdMismatch => 4100,
            PayrollError::TryingToInitPayerAsProgramAccount => 4101,
            PayrollError::AccountAlreadyInUse => 0,
        }
    }
}

} // verus!
