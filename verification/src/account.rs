//! The account: its operations, on the ledger of the call that is running.

use crate::error::ContractError;
use crate::events;
use crate::host;
use crate::ledger::{
    demanded_auths, granted_auths, in_contract, instance_entries, ledger, ledger_timestamp,
    persistent_entries, published_events, Entry, Event, EventData,
};
use crate::model::{
    after_add_session_key, after_execute, after_initialize, after_revoke_session_key,
    execute_readable, execute_verdict, is_initialized, nonce, nonce_readable, owner,
    owner_readable, session_key, session_key_readable, step, Request,
};
use crate::policy;
use crate::types::{Address, DataKey, SessionKey, SessionKeyView, Symbol};
use soroban_sdk::{Env, Val, Vec as HostVec};
use vstd::prelude::*;

verus! {

/// The public key that a caller presents.
pub open spec fn presented(session: Option<[u8; 32]>) -> Option<Seq<u8>> {
    match session {
        Some(public_key) => Some(public_key@),
        None => None,
    }
}

/// A smart account: an owner, a nonce that every executed transaction uses up, and session keys
/// that may act for the owner.
pub struct AncoreAccount;

impl AncoreAccount {
    /// Initialize the account with an owner.
    pub fn initialize(env: &mut Env, owner: Address) -> (result: Result<(), ContractError>)
        requires
            ledger(*old(env)).running,
        ensures
            is_initialized(ledger(*old(env))) ==> {
                &&& result == Err::<(), ContractError>(ContractError::AlreadyInitialized)
                &&& *final(env) == *old(env)
            },
            !is_initialized(ledger(*old(env))) ==> {
                &&& result == Ok::<(), ContractError>(())
                &&& ledger(*final(env)) == after_initialize(ledger(*old(env)), owner@)
            },
            granted_auths(*final(env)) == granted_auths(*old(env)),
            ledger(*final(env)) == step(
                ledger(*old(env)),
                Request::Initialize { owner: owner@ },
            ),
            // The account is initialized if and only if there is no entry `Owner`. Then the owner
            // and the nonce zero are entered, and the owner is published.
            result == Ok::<(), ContractError>(()) <==> !instance_entries(*old(env)).contains_key(
                "Owner"@,
            ),
            result is Err ==> {
                &&& result == Err::<(), ContractError>(ContractError::AlreadyInitialized)
                &&& *final(env) == *old(env)
            },
            result is Ok ==> {
                &&& instance_entries(*final(env)) == instance_entries(*old(env)).insert(
                    "Owner"@,
                    Entry::Address(owner@),
                ).insert("Nonce"@, Entry::Number(0))
                &&& persistent_entries(*final(env)) == persistent_entries(*old(env))
                &&& published_events(*final(env)) == published_events(*old(env)).push(
                    Event { topic: "initialized"@, data: EventData::Address(owner@) },
                )
                &&& demanded_auths(*final(env)) == demanded_auths(*old(env))
                &&& ledger_timestamp(*final(env)) == ledger_timestamp(*old(env))
                &&& in_contract(*final(env))
            },
    {
        let owned = host::instance_has(env, &DataKey::Owner.symbol());
        match policy::check_uninitialized(owned) {
            Ok(()) => {},
            Err(error) => {
                return Err(error);
            },
        }
        host::instance_set_address(env, &DataKey::Owner.symbol(), &owner);
        host::instance_set_number(env, &DataKey::Nonce.symbol(), 0);
        host::publish_address(env, &events::initialized(), &owner);
        Ok(())
    }

    /// Get the account owner.
    pub fn get_owner(env: &Env) -> (result: Result<Address, ContractError>)
        requires
            owner_readable(ledger(*env)),
        ensures
            match owner(ledger(*env)) {
                Some(address) => result matches Ok(found) && found@ == address,
                None => result == Err::<Address, ContractError>(ContractError::NotInitialized),
            },
            result is Ok <==> instance_entries(*env).contains_key("Owner"@),
            result matches Ok(found) ==> instance_entries(*env)["Owner"@] == Entry::Address(found@),
            result matches Err(error) ==> error == ContractError::NotInitialized,
    {
        policy::owner_on_record(host::instance_get_address(env, &DataKey::Owner.symbol()))
    }

    /// Get the current nonce.
    pub fn get_nonce(env: &Env) -> (result: Result<u64, ContractError>)
        requires
            nonce_readable(ledger(*env)),
        ensures
            result == Ok::<u64, ContractError>(nonce(ledger(*env))),
            instance_entries(*env).contains_key("Nonce"@) ==> instance_entries(*env)["Nonce"@]
                == Entry::Number(result->Ok_0),
            !instance_entries(*env).contains_key("Nonce"@) ==> result->Ok_0 == 0,
    {
        Ok(policy::nonce_on_record(host::instance_get_number(env, &DataKey::Nonce.symbol())))
    }

    /// Get a session key.
    pub fn get_session_key(env: &Env, public_key: [u8; 32]) -> (found: Option<SessionKey>)
        requires
            session_key_readable(ledger(*env), public_key@),
        ensures
            match session_key(ledger(*env), public_key@) {
                Some(key) => found matches Some(held) && held@ == key,
                None => found is None,
            },
            found is Some <==> persistent_entries(*env).contains_key(("SessionKey"@, public_key@)),
            found matches Some(held) ==> persistent_entries(*env)[("SessionKey"@, public_key@)]
                == Entry::SessionKey(
                SessionKeyView {
                    public_key: held.public_key@,
                    expires_at: held.expires_at,
                    permissions: held.permissions@,
                },
            ),
    {
        let key = DataKey::SessionKey(public_key);
        host::persistent_get_session_key(env, &key.symbol(), &public_key)
    }

    /// Decide whether a request to execute a transaction is acceptable, short of the
    /// authorization of the caller: give the nonce under which it is, or why it is not.
    ///
    /// # Auth paths
    /// - **Owner path**: `caller` == stored owner; no session-key checks needed.
    /// - **Session-key path**: `caller` != owner, and
    ///     1. `session_key` must be `Some(public_key)` that was previously registered.
    ///     2. The session key must not be expired (`expires_at > current ledger timestamp`).
    ///     3. The session key's `permissions` list must contain `required_permission`.
    pub fn authorize(
        env: &Env,
        caller: &Address,
        session_key: Option<[u8; 32]>,
        expected_nonce: u64,
        required_permission: u32,
    ) -> (result: Result<u64, ContractError>)
        requires
            execute_readable(ledger(*env), caller@, presented(session_key), expected_nonce),
        ensures
            result == execute_verdict(
                ledger(*env),
                caller@,
                presented(session_key),
                expected_nonce,
                required_permission,
            ),
            // No owner on record: nothing is executed.
            result == Err::<u64, ContractError>(ContractError::NotInitialized)
                <==> !instance_entries(*env).contains_key("Owner"@),
            // An owner, but another nonce on record (or none, which stands for zero).
            result == Err::<u64, ContractError>(ContractError::InvalidNonce) <==> {
                &&& instance_entries(*env).contains_key("Owner"@)
                &&& if instance_entries(*env).contains_key("Nonce"@) {
                    instance_entries(*env)["Nonce"@] != Entry::Number(expected_nonce)
                } else {
                    expected_nonce != 0
                }
            },
            // With the nonce on record the owner is accepted as such.
            instance_entries(*env).contains_key("Owner"@) && instance_entries(*env)["Owner"@]
                == Entry::Address(caller@) && result
                != Err::<u64, ContractError>(ContractError::InvalidNonce)
                ==> result == Ok::<u64, ContractError>(expected_nonce),
            // Anybody else is answered by the entry of the very public key that they present.
            instance_entries(*env).contains_key("Owner"@) && instance_entries(*env)["Owner"@]
                != Entry::Address(caller@) && result
                != Err::<u64, ContractError>(ContractError::InvalidNonce) ==> match session_key {
                None => result == Err::<u64, ContractError>(ContractError::SessionKeyNotFound),
                Some(public_key) => {
                    let registered = persistent_entries(*env).contains_key(
                        ("SessionKey"@, public_key@),
                    );
                    let key = persistent_entries(*env)[(
                        "SessionKey"@,
                        public_key@,
                    )]->SessionKey_0;
                    let live = ledger_timestamp(*env) < key.expires_at;
                    let permitted = key.permissions.contains(required_permission);
                    &&& result == Err::<u64, ContractError>(ContractError::SessionKeyNotFound)
                        <==> !registered
                    &&& result == Err::<u64, ContractError>(ContractError::SessionKeyExpired)
                        <==> registered && !live
                    &&& result == Err::<u64, ContractError>(ContractError::InsufficientPermission)
                        <==> registered && live && !permitted
                    &&& result == Ok::<u64, ContractError>(expected_nonce)
                        <==> registered && live && permitted
                },
            },
    {
        let owner = match Self::get_owner(env) {
            Ok(owner) => owner,
            Err(error) => {
                return Err(error);
            },
        };
        let current_nonce: u64 = match Self::get_nonce(env) {
            Ok(nonce) => nonce,
            Err(error) => {
                return Err(error);
            },
        };
        match policy::check_nonce(current_nonce, expected_nonce) {
            Ok(()) => {},
            Err(error) => {
                return Err(error);
            },
        }
        if caller.same(&owner) {
            return Ok(current_nonce);
        }
        let public_key = match session_key {
            Some(public_key) => public_key,
            None => {
                return Err(ContractError::SessionKeyNotFound);
            },
        };
        let key = match Self::get_session_key(env, public_key) {
            Some(key) => key,
            None => {
                return Err(ContractError::SessionKeyNotFound);
            },
        };
        match policy::check_session_key(&key, host::timestamp(env), required_permission) {
            Ok(()) => Ok(current_nonce),
            Err(error) => Err(error),
        }
    }

    /// Execute a transaction with nonce replay-protection and dual auth paths.
    ///
    /// Whether the request is acceptable is decided by [`AncoreAccount::authorize`]. If it is, on
    /// either path, the authorization of `caller` over this invocation is demanded.
    ///
    /// # Nonce
    /// `expected_nonce` must equal the current nonce stored in the contract.
    /// The nonce is incremented **after** all checks pass, preventing replays.
    ///
    /// # Parameters
    /// - `caller`: address of the entity authorising the call (owner or session-key holder).
    /// - `to`: target contract address.
    /// - `function`: name of the function to invoke on `to`.
    /// - `_args`: arguments forwarded to the cross-contract call (reserved; not yet executed).
    /// - `session_key`: public key of the session key that a caller other than the owner presents.
    /// - `expected_nonce`: caller's view of the current nonce; must match exactly.
    /// - `required_permission`: permission code the session key must carry (ignored for owner).
    ///
    /// # Errors
    /// - [`ContractError::NotInitialized`]: contract has no owner yet.
    /// - [`ContractError::InvalidNonce`]: `expected_nonce` does not match stored nonce.
    /// - [`ContractError::SessionKeyNotFound`]: no session key exists for the supplied public key.
    /// - [`ContractError::SessionKeyExpired`]: session key's `expires_at` is not after the current
    ///   ledger timestamp.
    /// - [`ContractError::InsufficientPermission`]: session key does not carry
    ///   `required_permission`.
    pub fn execute(
        env: &mut Env,
        caller: Address,
        to: Address,
        function: Symbol,
        _args: HostVec<Val>,
        session_key: Option<[u8; 32]>,
        expected_nonce: u64,
        required_permission: u32,
    ) -> (result: Result<bool, ContractError>)
        requires
            execute_readable(ledger(*old(env)), caller@, presented(session_key), expected_nonce),
            execute_verdict(
                ledger(*old(env)),
                caller@,
                presented(session_key),
                expected_nonce,
                required_permission,
            ) is Ok ==> {
                &&& granted_auths(*old(env)).contains(caller@)
                &&& expected_nonce < u64::MAX
            },
        ensures
            match execute_verdict(
                ledger(*old(env)),
                caller@,
                presented(session_key),
                expected_nonce,
                required_permission,
            ) {
                Ok(used) => {
                    &&& result == Ok::<bool, ContractError>(true)
                    &&& ledger(*final(env)) == after_execute(
                        ledger(*old(env)),
                        caller@,
                        to@,
                        function@,
                        used,
                    )
                },
                Err(error) => {
                    &&& result == Err::<bool, ContractError>(error)
                    &&& *final(env) == *old(env)
                },
            },
            ledger(*final(env)) == step(
                ledger(*old(env)),
                Request::Execute {
                    caller: caller@,
                    to: to@,
                    function: function@,
                    session: presented(session_key),
                    expected_nonce,
                    required_permission,
                },
            ),
            // No owner on record: nothing is executed.
            result == Err::<bool, ContractError>(ContractError::NotInitialized)
                <==> !instance_entries(*old(env)).contains_key("Owner"@),
            // An owner, but another nonce on record (or none, which stands for zero).
            result == Err::<bool, ContractError>(ContractError::InvalidNonce) <==> {
                &&& instance_entries(*old(env)).contains_key("Owner"@)
                &&& if instance_entries(*old(env)).contains_key("Nonce"@) {
                    instance_entries(*old(env))["Nonce"@] != Entry::Number(expected_nonce)
                } else {
                    expected_nonce != 0
                }
            },
            // With the nonce on record the owner is accepted as such.
            instance_entries(*old(env)).contains_key("Owner"@)
                && instance_entries(*old(env))["Owner"@] == Entry::Address(caller@) && result
                != Err::<bool, ContractError>(ContractError::InvalidNonce)
                ==> result == Ok::<bool, ContractError>(true),
            // Anybody else is answered by the entry of the very public key that they present.
            instance_entries(*old(env)).contains_key("Owner"@)
                && instance_entries(*old(env))["Owner"@] != Entry::Address(caller@) && result
                != Err::<bool, ContractError>(ContractError::InvalidNonce) ==> match session_key {
                None => result == Err::<bool, ContractError>(ContractError::SessionKeyNotFound),
                Some(public_key) => {
                    let registered = persistent_entries(*old(env)).contains_key(
                        ("SessionKey"@, public_key@),
                    );
                    let key = persistent_entries(*old(env))[(
                        "SessionKey"@,
                        public_key@,
                    )]->SessionKey_0;
                    let live = ledger_timestamp(*old(env)) < key.expires_at;
                    let permitted = key.permissions.contains(required_permission);
                    &&& result == Err::<bool, ContractError>(ContractError::SessionKeyNotFound)
                        <==> !registered
                    &&& result == Err::<bool, ContractError>(ContractError::SessionKeyExpired)
                        <==> registered && !live
                    &&& result == Err::<bool, ContractError>(ContractError::InsufficientPermission)
                        <==> registered && live && !permitted
                    &&& result == Ok::<bool, ContractError>(true)
                        <==> registered && live && permitted
                },
            },
            // A refusal changes nothing. An execution uses the nonce up, publishes it with the
            // target and the function, and demands the authorization of the caller.
            result is Err ==> *final(env) == *old(env),
            result is Ok ==> {
                &&& instance_entries(*final(env)) == instance_entries(*old(env)).insert(
                    "Nonce"@,
                    Entry::Number((expected_nonce + 1) as u64),
                )
                &&& persistent_entries(*final(env)) == persistent_entries(*old(env))
                &&& published_events(*final(env)) == published_events(*old(env)).push(
                    Event {
                        topic: "executed"@,
                        data: EventData::Call(to@, function@, expected_nonce),
                    },
                )
                &&& demanded_auths(*final(env)) == demanded_auths(*old(env)).push(caller@)
                &&& ledger_timestamp(*final(env)) == ledger_timestamp(*old(env))
                &&& in_contract(*final(env))
            },
    {
        let current_nonce: u64 = match Self::authorize(
            env,
            &caller,
            session_key,
            expected_nonce,
            required_permission,
        ) {
            Ok(nonce) => nonce,
            Err(error) => {
                return Err(error);
            },
        };
        host::require_auth(env, &caller);
        host::instance_set_number(env, &DataKey::Nonce.symbol(), current_nonce + 1);
        host::publish_call(env, &events::executed(), &to, &function, current_nonce);
        Ok(true)
    }

    /// Add a session key. The owner must have authorized the call.
    pub fn add_session_key(
        env: &mut Env,
        public_key: [u8; 32],
        expires_at: u64,
        permissions: Vec<u32>,
    ) -> (result: Result<(), ContractError>)
        requires
            owner_readable(ledger(*old(env))),
            owner(ledger(*old(env))) matches Some(address) ==> {
                &&& granted_auths(*old(env)).contains(address)
                &&& permissions@.len() <= u32::MAX
            },
        ensures
            match owner(ledger(*old(env))) {
                Some(address) => {
                    &&& result == Ok::<(), ContractError>(())
                    &&& ledger(*final(env)) == after_add_session_key(
                        ledger(*old(env)),
                        address,
                        SessionKeyView {
                            public_key: public_key@,
                            expires_at,
                            permissions: permissions@,
                        },
                    )
                },
                None => {
                    &&& result == Err::<(), ContractError>(ContractError::NotInitialized)
                    &&& *final(env) == *old(env)
                },
            },
            ledger(*final(env)) == step(
                ledger(*old(env)),
                Request::AddSessionKey {
                    key: SessionKeyView {
                        public_key: public_key@,
                        expires_at,
                        permissions: permissions@,
                    },
                },
            ),
            // It is carried out if and only if there is an owner on record, whose authorization is
            // demanded.
            result == Ok::<(), ContractError>(()) <==> instance_entries(*old(env)).contains_key(
                "Owner"@,
            ),
            result is Err ==> {
                &&& result == Err::<(), ContractError>(ContractError::NotInitialized)
                &&& *final(env) == *old(env)
            },
            result is Ok ==> {
                &&& instance_entries(*final(env)) == instance_entries(*old(env))
                &&& persistent_entries(*final(env)) == persistent_entries(*old(env)).insert(
                    ("SessionKey"@, public_key@),
                    Entry::SessionKey(
                        SessionKeyView {
                            public_key: public_key@,
                            expires_at,
                            permissions: permissions@,
                        },
                    ),
                )
                &&& published_events(*final(env)) == published_events(*old(env)).push(
                    Event {
                        topic: "session_key_added"@,
                        data: EventData::KeyExpiry(public_key@, expires_at),
                    },
                )
                &&& demanded_auths(*final(env)) == demanded_auths(*old(env)).push(
                    instance_entries(*old(env))["Owner"@]->Address_0,
                )
                &&& ledger_timestamp(*final(env)) == ledger_timestamp(*old(env))
                &&& in_contract(*final(env))
            },
    {
        let owner = match Self::get_owner(env) {
            Ok(owner) => owner,
            Err(error) => {
                return Err(error);
            },
        };
        host::require_auth(env, &owner);
        let key = DataKey::SessionKey(public_key);
        let session_key = SessionKey { public_key, expires_at, permissions };
        host::persistent_set_session_key(env, &key.symbol(), &public_key, &session_key);
        host::publish_key_expiry(env, &events::session_key_added(), &public_key, expires_at);
        Ok(())
    }

    /// Revoke a session key. The owner must have authorized the call. To revoke a key that is not
    /// registered is no error.
    pub fn revoke_session_key(env: &mut Env, public_key: [u8; 32]) -> (result: Result<
        (),
        ContractError,
    >)
        requires
            owner_readable(ledger(*old(env))),
            owner(ledger(*old(env))) matches Some(address) ==> granted_auths(*old(env)).contains(
                address,
            ),
        ensures
            match owner(ledger(*old(env))) {
                Some(address) => {
                    &&& result == Ok::<(), ContractError>(())
                    &&& ledger(*final(env)) == after_revoke_session_key(
                        ledger(*old(env)),
                        address,
                        public_key@,
                    )
                },
                None => {
                    &&& result == Err::<(), ContractError>(ContractError::NotInitialized)
                    &&& *final(env) == *old(env)
                },
            },
            ledger(*final(env)) == step(
                ledger(*old(env)),
                Request::RevokeSessionKey { id: public_key@ },
            ),
            // It is carried out if and only if there is an owner on record, whose authorization is
            // demanded.
            result == Ok::<(), ContractError>(()) <==> instance_entries(*old(env)).contains_key(
                "Owner"@,
            ),
            result is Err ==> {
                &&& result == Err::<(), ContractError>(ContractError::NotInitialized)
                &&& *final(env) == *old(env)
            },
            result is Ok ==> {
                &&& instance_entries(*final(env)) == instance_entries(*old(env))
                &&& persistent_entries(*final(env)) == persistent_entries(*old(env)).remove(
                    ("SessionKey"@, public_key@),
                )
                &&& published_events(*final(env)) == published_events(*old(env)).push(
                    Event {
                        topic: "session_key_revoked"@,
                        data: EventData::Key(public_key@),
                    },
                )
                &&& demanded_auths(*final(env)) == demanded_auths(*old(env)).push(
                    instance_entries(*old(env))["Owner"@]->Address_0,
                )
                &&& ledger_timestamp(*final(env)) == ledger_timestamp(*old(env))
                &&& in_contract(*final(env))
            },
    {
        let owner = match Self::get_owner(env) {
            Ok(owner) => owner,
            Err(error) => {
                return Err(error);
            },
        };
        host::require_auth(env, &owner);
        let key = DataKey::SessionKey(public_key);
        host::persistent_remove(env, &key.symbol(), &public_key);
        host::publish_key(env, &events::session_key_revoked(), &public_key);
        Ok(())
    }
}

} // verus!
