//! Reasons for which an operation is refused.

use vstd::prelude::*;

verus! {

/// Why an operation was refused. A refused operation changes nothing and
/// asks the host for nothing.
#[derive(Clone, Copy, Debug, PartialEq, Eq, Structural)]
pub enum WillError {
    /// The will has been set up before; it can be set up only once.
    AlreadyInitialized,
    /// The will has not been set up yet.
    NotInitialized,
    /// The caller is not the owner named in the will.
    NotOwner,
    /// The caller is not the beneficiary named in the will.
    NotBeneficiary,
    /// The owner's check-in is not yet overdue.
    DeadlineNotReached,
    /// The host found no valid proof that the caller controls the identity it
    /// acts for.
    AuthorizationFailed,
    /// The asset ledger refused the transfer that the operation asked for.
    TransferFailed,
}

impl WillError {
    /// The words of [`WillError::message`].
    pub open spec fn message_text(self) -> Seq<char> {
        match self {
            WillError::AlreadyInitialized => "Contract already initialized"@,
            WillError::NotInitialized => "Contract not initialized"@,
            WillError::NotOwner => "Only owner can do this"@,
            WillError::NotBeneficiary => "Only beneficiary can claim"@,
            WillError::DeadlineNotReached => "Check-in period has not passed yet"@,
            WillError::AuthorizationFailed => "Authorization failed"@,
            WillError::TransferFailed => "Transfer failed"@,
        }
    }

    /// The refusal in words, for the caller to read.
    pub fn message(&self) -> (text: &'static str)
        ensures
            text@ == self.message_text(),
    {
        match self {
            WillError::AlreadyInitialized => "Contract already initialized",
            WillError::NotInitialized => "Contract not initialized",
            WillError::NotOwner => "Only owner can do this",
            WillError::NotBeneficiary => "Only beneficiary can claim",
            WillError::DeadlineNotReached => "Check-in period has not passed yet",
            WillError::AuthorizationFailed => "Authorization failed",
            WillError::TransferFailed => "Transfer failed",
        }
    }
}

} // verus!
