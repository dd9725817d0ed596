//! Event topic naming convention.

use crate::types::Symbol;
use vstd::prelude::*;

verus! {

/// Event emitted when the account is initialized.
/// Data: (owner: Address)
pub fn initialized() -> (topic: Symbol)
    ensures
        topic@ == "initialized"@,
{
    proof {
        reveal_strlit("initialized");
    }
    Symbol::known("initialized")
}

/// Event emitted when a transaction is executed.
/// Data: (to: Address, function: Symbol, nonce: u64)
pub fn executed() -> (topic: Symbol)
    ensures
        topic@ == "executed"@,
{
    proof {
        reveal_strlit("executed");
    }
    Symbol::known("executed")
}

/// Event emitted when a session key is added.
/// Data: (public_key: [u8; 32], expires_at: u64)
pub fn session_key_added() -> (topic: Symbol)
    ensures
        topic@ == "session_key_added"@,
{
    proof {
        reveal_strlit("session_key_added");
    }
    Symbol::known("session_key_added")
}

/// Event emitted when a session key is revoked.
/// Data: (public_key: [u8; 32])
pub fn session_key_revoked() -> (topic: Symbol)
    ensures
        topic@ == "session_key_revoked"@,
{
    proof {
        reveal_strlit("session_key_revoked");
    }
    Symbol::known("session_key_revoked")
}

} // verus!
