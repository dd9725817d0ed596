//! What an account is, as a value: what it reads of a ledger, and what its operations answer and
//! leave behind.

use crate::error::ContractError;
use crate::ledger::{Entry, Event, EventData, Ledger};
use crate::policy::session_key_verdict;
use crate::types::{AddressView, DataKey, SessionKeyView};
use vstd::prelude::*;

verus! {

/// Whether an owner is on record.
pub open spec fn is_initialized(l: Ledger) -> bool {
    l.instance.contains_key(DataKey::Owner.name())
}

/// The owner on record.
pub open spec fn owner(l: Ledger) -> Option<AddressView> {
    if !is_initialized(l) {
        None
    } else {
        match l.instance[DataKey::Owner.name()] {
            Entry::Address(address) => Some(address),
            _ => None,
        }
    }
}

/// The nonce on record, zero where there is none.
pub open spec fn nonce(l: Ledger) -> u64 {
    if !l.instance.contains_key(DataKey::Nonce.name()) {
        0
    } else {
        match l.instance[DataKey::Nonce.name()] {
            Entry::Number(number) => number,
            _ => 0,
        }
    }
}

/// The key of the entry in which the session key with the public key `id` is kept.
pub open spec fn session_slot(id: Seq<u8>) -> (Seq<char>, Seq<u8>) {
    ("SessionKey"@, id)
}

/// The session key that is registered under the public key `id`.
pub open spec fn session_key(l: Ledger, id: Seq<u8>) -> Option<SessionKeyView> {
    if !l.persistent.contains_key(session_slot(id)) {
        None
    } else {
        match l.persistent[session_slot(id)] {
            Entry::SessionKey(session_key) => Some(session_key),
            _ => None,
        }
    }
}

/// A contract call is running, and an owner can be read: if there is an entry for one, it holds an
/// address.
pub open spec fn owner_readable(l: Ledger) -> bool {
    &&& l.running
    &&& is_initialized(l) ==> l.instance[DataKey::Owner.name()] is Address
}

/// A contract call is running, and a nonce can be read: if there is an entry for one, it holds a
/// number.
pub open spec fn nonce_readable(l: Ledger) -> bool {
    &&& l.running
    &&& l.instance.contains_key(DataKey::Nonce.name())
        ==> l.instance[DataKey::Nonce.name()] is Number
}

/// A contract call is running, and a session key can be read under `id`: if there is an entry for
/// one, it holds a session key.
pub open spec fn session_key_readable(l: Ledger, id: Seq<u8>) -> bool {
    &&& l.running
    &&& l.persistent.contains_key(session_slot(id))
        ==> l.persistent[session_slot(id)] is SessionKey
}

/// All that is read of the ledger to decide on an execution can be read.
pub open spec fn execute_readable(
    l: Ledger,
    caller: AddressView,
    session: Option<Seq<u8>>,
    expected_nonce: u64,
) -> bool {
    &&& owner_readable(l)
    &&& owner(l) is Some ==> nonce_readable(l)
    &&& owner(l) is Some && nonce(l) == expected_nonce && owner(l) != Some(caller)
        ==> (session matches Some(id) ==> session_key_readable(l, id))
}

/// What an account answers to a request to execute a transaction, before it asks for the
/// authorization of the caller: the nonce under which it accepts the request, or why it does not.
///
/// The owner is accepted with the current nonce alone. Anybody else needs, besides, a registered
/// session key that has not expired and carries the permission asked for.
pub open spec fn execute_verdict(
    l: Ledger,
    caller: AddressView,
    session: Option<Seq<u8>>,
    expected_nonce: u64,
    required_permission: u32,
) -> Result<u64, ContractError> {
    if owner(l) is None {
        Err(ContractError::NotInitialized)
    } else if nonce(l) != expected_nonce {
        Err(ContractError::InvalidNonce)
    } else if owner(l) == Some(caller) {
        Ok(expected_nonce)
    } else {
        let registered = match session {
            Some(id) => session_key(l, id),
            None => None,
        };
        match registered {
            None => Err(ContractError::SessionKeyNotFound),
            Some(key) => match session_key_verdict(key, l.timestamp, required_permission) {
                Ok(()) => Ok(expected_nonce),
                Err(error) => Err(error),
            },
        }
    }
}

/// The ledger after the account was initialized with `new_owner`.
pub open spec fn after_initialize(l: Ledger, new_owner: AddressView) -> Ledger {
    Ledger {
        instance: l.instance.insert(DataKey::Owner.name(), Entry::Address(new_owner)).insert(
            DataKey::Nonce.name(),
            Entry::Number(0),
        ),
        events: l.events.push(
            Event { topic: "initialized"@, data: EventData::Address(new_owner) },
        ),
        ..l
    }
}

/// The ledger after a transaction was executed for `caller` under the nonce `used`.
pub open spec fn after_execute(
    l: Ledger,
    caller: AddressView,
    to: AddressView,
    function: Seq<char>,
    used: u64,
) -> Ledger {
    Ledger {
        instance: l.instance.insert(DataKey::Nonce.name(), Entry::Number((used + 1) as u64)),
        events: l.events.push(
            Event { topic: "executed"@, data: EventData::Call(to, function, used) },
        ),
        demands: l.demands.push(caller),
        ..l
    }
}

/// The ledger after `owner` registered a session key.
pub open spec fn after_add_session_key(
    l: Ledger,
    owner: AddressView,
    key: SessionKeyView,
) -> Ledger {
    Ledger {
        persistent: l.persistent.insert(session_slot(key.public_key), Entry::SessionKey(key)),
        events: l.events.push(
            Event {
                topic: "session_key_added"@,
                data: EventData::KeyExpiry(key.public_key, key.expires_at),
            },
        ),
        demands: l.demands.push(owner),
        ..l
    }
}

/// The ledger after `owner` revoked the session key with the public key `id`.
pub open spec fn after_revoke_session_key(l: Ledger, owner: AddressView, id: Seq<u8>) -> Ledger {
    Ledger {
        persistent: l.persistent.remove(session_slot(id)),
        events: l.events.push(
            Event { topic: "session_key_revoked"@, data: EventData::Key(id) },
        ),
        demands: l.demands.push(owner),
        ..l
    }
}

/// A call that may change the ledger.
pub enum Request {
    Initialize { owner: AddressView },
    Execute {
        caller: AddressView,
        to: AddressView,
        function: Seq<char>,
        session: Option<Seq<u8>>,
        expected_nonce: u64,
        required_permission: u32,
    },
    AddSessionKey { key: SessionKeyView },
    RevokeSessionKey { id: Seq<u8> },
}

/// Why a request is refused on the ledger `l`, or `None` where it is carried out.
pub open spec fn refusal(l: Ledger, request: Request) -> Option<ContractError> {
    match request {
        Request::Initialize { .. } => if is_initialized(l) {
            Some(ContractError::AlreadyInitialized)
        } else {
            None
        },
        Request::Execute { caller, session, expected_nonce, required_permission, .. } => {
            match execute_verdict(l, caller, session, expected_nonce, required_permission) {
                Ok(_) => None,
                Err(error) => Some(error),
            }
        },
        Request::AddSessionKey { .. } | Request::RevokeSessionKey { .. } => if owner(l) is None {
            Some(ContractError::NotInitialized)
        } else {
            None
        },
    }
}

/// The ledger that a request leaves behind.
pub open spec fn step(l: Ledger, request: Request) -> Ledger {
    if refusal(l, request) is Some {
        l
    } else {
        match request {
            Request::Initialize { owner } => after_initialize(l, owner),
            Request::Execute { caller, to, function, expected_nonce, .. } => after_execute(
                l,
                caller,
                to,
                function,
                expected_nonce,
            ),
            Request::AddSessionKey { key } => after_add_session_key(l, owner(l)->0, key),
            Request::RevokeSessionKey { id } => after_revoke_session_key(l, owner(l)->0, id),
        }
    }
}

} // verus!
