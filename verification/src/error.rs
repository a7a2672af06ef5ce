//! Errors of the escrow instructions.
use vstd::prelude::*;
use anchor_lang::prelude::ProgramError;

verus! {

/// The escrow's own errors.
#[derive(Clone, Copy, Debug, PartialEq, Eq, Structural)]
pub enum EscrowError {
    /// The escrow can no longer be taken: its expiry time has come.
    EscrowExpired,
    /// An amount to deposit or to receive is zero.
    InvalidAmount,
    /// The expiry time is not after the current time.
    InvalidExpiry,
}

/// Why an instruction was refused.
#[derive(Debug, PartialEq)]
pub enum InstructionError {
    /// One of the escrow's own errors.
    Escrow(EscrowError),
    /// An account is not the one that the escrow records.
    ConstraintHasOne,
    /// The escrow account is not at the address that its seeds give.
    ConstraintSeeds,
    /// The runtime refused a request, such as a read of the clock.
    Runtime(ProgramError),
}

/// The first error number of a program's own errors.
pub const ERROR_CODE_OFFSET: u32 = 6000;

impl EscrowError {
    /// The error's number: the offset plus its position in the declaration.
    pub fn code(&self) -> (c: u32)
        ensures
            c == ERROR_CODE_OFFSET + match *self {
                EscrowError::EscrowExpired => 0int,
                EscrowError::InvalidAmount => 1int,
                EscrowError::InvalidExpiry => 2int,
            },
    {
        match self {
            EscrowError::EscrowExpired => ERROR_CODE_OFFSET,
            EscrowError::InvalidAmount => ERROR_CODE_OFFSET + 1,
            EscrowError::InvalidExpiry => ERROR_CODE_OFFSET + 2,
        }
    }

    /// The error's name, as it is reported.
    pub fn name(&self) -> (s: &'static str)
        ensures
            s@ == match *self {
                EscrowError::EscrowExpired => "EscrowExpired"@,
                EscrowError::InvalidAmount => "InvalidAmount"@,
                EscrowError::InvalidExpiry => "InvalidExpiry"@,
            },
    {
        match self {
            EscrowError::EscrowExpired => "EscrowExpired",
            EscrowError::InvalidAmount => "InvalidAmount",
            EscrowError::InvalidExpiry => "InvalidExpiry",
        }
    }

    /// The error's message.
    pub fn message(&self) -> (s: &'static str)
        ensures
            s@ == match *self {
                EscrowError::EscrowExpired => "Can not withdraw funds after escrow expired"@,
                EscrowError::InvalidAmount => "Invalid Amount"@,
                EscrowError::InvalidExpiry => "Invalid Expiry"@,
            },
    {
        match self {
            EscrowError::EscrowExpired => "Can not withdraw funds after escrow expired",
            EscrowError::InvalidAmount => "Invalid Amount",
            EscrowError::InvalidExpiry => "Invalid Expiry",
        }
    }
}

} // verus!
