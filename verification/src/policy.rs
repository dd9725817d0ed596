//! The rules of an account, on plain values.
//!
//! Each rule takes what the ledger holds as an argument and says what follows from it.

use crate::error::ContractError;
use crate::types::{Address, SessionKey, SessionKeyView};
use vstd::prelude::*;

verus! {

/// An account can be initialized only once: not where `owned`, that is, where an owner is on
/// record.
pub fn check_uninitialized(owned: bool) -> (result: Result<(), ContractError>)
    ensures
        result == (if owned {
            Err::<(), ContractError>(ContractError::AlreadyInitialized)
        } else {
            Ok(())
        }),
{
    if owned {
        return Err(ContractError::AlreadyInitialized);
    }
    Ok(())
}

/// The owner is the address on record, and there is none before the account is initialized.
pub fn owner_on_record(held: Option<Address>) -> (result: Result<Address, ContractError>)
    ensures
        result == match held {
            Some(owner) => Ok::<Address, ContractError>(owner),
            None => Err(ContractError::NotInitialized),
        },
{
    match held {
        Some(owner) => Ok(owner),
        None => Err(ContractError::NotInitialized),
    }
}

/// The nonce is the number on record, and zero before there is one.
pub fn nonce_on_record(held: Option<u64>) -> (nonce: u64)
    ensures
        nonce == match held {
            Some(number) => number,
            None => 0,
        },
{
    match held {
        Some(number) => number,
        None => 0,
    }
}

/// A call is accepted only with the current nonce.
pub fn check_nonce(current: u64, expected: u64) -> (result: Result<(), ContractError>)
    ensures
        result == (if current == expected {
            Ok::<(), ContractError>(())
        } else {
            Err(ContractError::InvalidNonce)
        }),
{
    if current != expected {
        return Err(ContractError::InvalidNonce);
    }
    Ok(())
}

/// What a session key may do: nothing from the moment on at which it expires, and before that,
/// what its permissions list.
pub open spec fn session_key_verdict(
    session_key: SessionKeyView,
    now: u64,
    required_permission: u32,
) -> Result<(), ContractError> {
    if session_key.expires_at <= now {
        Err(ContractError::SessionKeyExpired)
    } else if !session_key.permissions.contains(required_permission) {
        Err(ContractError::InsufficientPermission)
    } else {
        Ok(())
    }
}

/// Decides whether a session key may act at the time `now` where `required_permission` is asked
/// for.
pub fn check_session_key(session_key: &SessionKey, now: u64, required_permission: u32) -> (result:
    Result<(), ContractError>)
    ensures
        result == session_key_verdict(session_key@, now, required_permission),
        result == Err::<(), ContractError>(ContractError::SessionKeyExpired)
            <==> session_key.expires_at <= now,
        result == Err::<(), ContractError>(ContractError::InsufficientPermission) <==> {
            &&& now < session_key.expires_at
            &&& !session_key.permissions@.contains(required_permission)
        },
        result == Ok::<(), ContractError>(()) <==> {
            &&& now < session_key.expires_at
            &&& session_key.permissions@.contains(required_permission)
        },
{
    // Expiry: expires_at must be strictly greater than the current ledger timestamp.
    if session_key.expires_at <= now {
        return Err(ContractError::SessionKeyExpired);
    }
    // Permission: the session key's permission list must contain required_permission.
    if !session_key.permits(required_permission) {
        return Err(ContractError::InsufficientPermission);
    }
    Ok(())
}

} // verus!
