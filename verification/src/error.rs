//! The errors that an account answers with.

use vstd::prelude::*;

verus! {

/// Contract error types for structured error handling.
#[derive(Clone, Copy, Debug, PartialEq, Eq, Structural)]
pub enum ContractError {
    /// Account is already initialized
    AlreadyInitialized,
    /// Account is not initialized
    NotInitialized,
    /// Caller is not authorized
    Unauthorized,
    /// Invalid nonce provided
    InvalidNonce,
    /// Session key not found
    SessionKeyNotFound,
    /// Session key has expired
    SessionKeyExpired,
    /// Insufficient permissions
    InsufficientPermission,
}

impl ContractError {
    /// The number under which the error is reported to the caller of the contract.
    pub open spec fn spec_code(self) -> u32 {
        match self {
            ContractError::AlreadyInitialized => 1,
            ContractError::NotInitialized => 2,
            ContractError::Unauthorized => 3,
            ContractError::InvalidNonce => 4,
            ContractError::SessionKeyNotFound => 5,
            ContractError::SessionKeyExpired => 6,
            ContractError::InsufficientPermission => 7,
        }
    }

    /// The number under which the error is reported to the caller of the contract.
    pub fn code(self) -> (code: u32)
        ensures
            code == self.spec_code(),
            self is AlreadyInitialized <==> code == 1,
            self is NotInitialized <==> code == 2,
            self is Unauthorized <==> code == 3,
            self is InvalidNonce <==> code == 4,
            self is SessionKeyNotFound <==> code == 5,
            self is SessionKeyExpired <==> code == 6,
            self is InsufficientPermission <==> code == 7,
    {
        match self {
            ContractError::AlreadyInitialized => 1,
            ContractError::NotInitialized => 2,
            ContractError::Unauthorized => 3,
            ContractError::InvalidNonce => 4,
            ContractError::SessionKeyNotFound => 5,
            ContractError::SessionKeyExpired => 6,
            ContractError::InsufficientPermission => 7,
        }
    }
}

} // verus!
