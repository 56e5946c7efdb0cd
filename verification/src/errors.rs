use vstd::prelude::*;

verus! {

/// Every failure an instruction of this library can surface.
///
/// Constraint violations (wrong owner, wrong account relationship, an
/// account of the wrong size) and invalid arguments are all fatal: the
/// caller is expected to drop every account change made so far, which the
/// library guarantees by never mutating an account before all checks have
/// passed.
#[derive(Clone, Copy, Debug, PartialEq, Eq, Structural)]
pub enum BridgeError {
    /// The signing emitter differs from the emitter recorded in the
    /// message account.
    EmitterMismatch,
    /// A malformed instruction argument, such as an empty payload.
    InvalidInstructionArgument,
    /// The payer cannot cover the configured message fee.
    InsufficientFunds,
    /// An already-created account was handed in with a size other than the
    /// one this call would allocate.
    ConstraintSpace,
    /// A token account owned by a program other than the token ledger.
    ConstraintTokenTokenProgram,
    /// Account data of the wrong length or with an invalid state byte.
    AccountDidNotDeserialize,
    /// An uninitialized account where an initialized one is required.
    AccountNotInitialized,
    /// A wrapped-asset record exists for a mint that must be native.
    WrappedAsset,
    /// The sender authority is not the derived sender address of the
    /// program claimed as the transfer's authorizer.
    InvalidProgramSender,
    /// A write or finalize on a message that is no longer in its writable
    /// window.
    MessageAlreadyPublished,
}

impl BridgeError {
    /// A short stable name for logs and test output.
    pub fn describe(&self) -> (r: &'static str)
    {
        match self {
            BridgeError::EmitterMismatch => "EmitterMismatch",
            BridgeError::InvalidInstructionArgument => "InvalidInstructionArgument",
            BridgeError::InsufficientFunds => "InsufficientFunds",
            BridgeError::ConstraintSpace => "ConstraintSpace",
            BridgeError::ConstraintTokenTokenProgram => "ConstraintTokenTokenProgram",
            BridgeError::AccountDidNotDeserialize => "AccountDidNotDeserialize",
            BridgeError::AccountNotInitialized => "AccountNotInitialized",
            BridgeError::WrappedAsset => "WrappedAsset",
            BridgeError::InvalidProgramSender => "InvalidProgramSender",
            BridgeError::MessageAlreadyPublished => "MessageAlreadyPublished",
        }
    }
}

} // verus!
