//! The calls into the host: storage, authorization, the clock and events.
//!
//! Nothing here is proved. Each function makes one call into `soroban_sdk`, converts what goes in
//! and what comes out, and claims of the call what its contract says. The claims are about calls
//! that come back: the host can end a call at any point, for want of a resource (its budget, its
//! footprint, an archived entry), and then undoes all that the call did.

use crate::ledger::{
    demanded_auths, granted_auths, in_contract, instance_entries, ledger, ledger_timestamp,
    persistent_entries, published_events, Entry, Event, EventData, Ledger,
};
use crate::types::{Address, SessionKey, Symbol};
use soroban_sdk::xdr::{AccountId, PublicKey, ScAddress, Uint256};
use soroban_sdk::{
    BytesN, Env, EnvBase, FromVal, IntoVal, Map as HostMap, Symbol as HostSymbol, TryFromVal, Val,
    Vec as HostVec,
};
use vstd::prelude::*;

verus! {

/// Calls `Instance::has`: tells whether there is an entry under the key.
#[verifier::external_body]
pub(crate) fn instance_has(env: &Env, key: &Symbol) -> (found: bool)
    requires
        in_contract(*env),
    ensures
        found == instance_entries(*env).contains_key(key@),
{
    env.storage().instance().has(&(HostSymbol::new(env, key.as_str()),))
}

/// Calls `Instance::get` for an address: gives the address that the entry under the key holds, and
/// `None` where there is no entry. It panics where the entry holds no address.
#[verifier::external_body]
pub(crate) fn instance_get_address(env: &Env, key: &Symbol) -> (held: Option<Address>)
    requires
        in_contract(*env),
        instance_entries(*env).contains_key(key@) ==> instance_entries(*env)[key@] is Address,
    ensures
        held is Some <==> instance_entries(*env).contains_key(key@),
        held matches Some(address) ==> instance_entries(*env)[key@] == Entry::Address(address@),
{
    let key = (HostSymbol::new(env, key.as_str()),);
    let held: Option<soroban_sdk::Address> = env.storage().instance().get(&key);
    held.map(|address| match ScAddress::from(&address) {
        ScAddress::Account(AccountId(PublicKey::PublicKeyTypeEd25519(Uint256(key)))) =>
            Address::Account(key),
        ScAddress::Contract(soroban_sdk::xdr::Hash(hash)) => Address::Contract(hash),
    })
}

/// Calls `Instance::get` for a `u64`: gives the number that the entry under the key holds, and
/// `None` where there is no entry. It panics where the entry holds no `u64`.
#[verifier::external_body]
pub(crate) fn instance_get_number(env: &Env, key: &Symbol) -> (held: Option<u64>)
    requires
        in_contract(*env),
        instance_entries(*env).contains_key(key@) ==> instance_entries(*env)[key@] is Number,
    ensures
        held is Some <==> instance_entries(*env).contains_key(key@),
        held matches Some(number) ==> instance_entries(*env)[key@] == Entry::Number(number),
{
    env.storage().instance().get(&(HostSymbol::new(env, key.as_str()),))
}

/// Calls `Instance::set` with an address: puts it under the key, in place of what was there, and
/// changes nothing else.
#[verifier::external_body]
pub(crate) fn instance_set_address(env: &mut Env, key: &Symbol, value: &Address)
    requires
        in_contract(*old(env)),
    ensures
        in_contract(*final(env)),
        granted_auths(*final(env)) == granted_auths(*old(env)),
        ledger(*final(env)) == (Ledger {
            instance: instance_entries(*old(env)).insert(key@, Entry::Address(value@)),
            ..ledger(*old(env))
        }),
{
    let value = match value {
        Address::Account(key) =>
            ScAddress::Account(AccountId(PublicKey::PublicKeyTypeEd25519(Uint256(*key)))),
        Address::Contract(hash) => ScAddress::Contract(soroban_sdk::xdr::Hash(*hash)),
    };
    let value = soroban_sdk::Address::try_from_val(env, &value).unwrap();
    env.storage().instance().set(&(HostSymbol::new(env, key.as_str()),), &value);
}

/// Calls `Instance::set` with a `u64`: puts it under the key, in place of what was there, and
/// changes nothing else.
#[verifier::external_body]
pub(crate) fn instance_set_number(env: &mut Env, key: &Symbol, value: u64)
    requires
        in_contract(*old(env)),
    ensures
        in_contract(*final(env)),
        granted_auths(*final(env)) == granted_auths(*old(env)),
        ledger(*final(env)) == (Ledger {
            instance: instance_entries(*old(env)).insert(key@, Entry::Number(value)),
            ..ledger(*old(env))
        }),
{
    env.storage().instance().set(&(HostSymbol::new(env, key.as_str()),), &value);
}

/// Calls `Persistent::get` for a session key: gives the session key that the entry under the key
/// holds, and `None` where there is no entry. It panics where the entry is not a map that holds
/// the fields of a session key. The list of permissions comes out of the host in one call.
#[verifier::external_body]
pub(crate) fn persistent_get_session_key(
    env: &Env,
    key: &Symbol,
    id: &[u8; 32],
) -> (held: Option<SessionKey>)
    requires
        in_contract(*env),
        persistent_entries(*env).contains_key((key@, id@))
            ==> persistent_entries(*env)[(key@, id@)] is SessionKey,
    ensures
        held is Some <==> persistent_entries(*env).contains_key((key@, id@)),
        held matches Some(session_key) ==> persistent_entries(*env)[(key@, id@)]
            == Entry::SessionKey(session_key@),
{
    let key = (HostSymbol::new(env, key.as_str()), BytesN::from_array(env, id));
    let fields: HostMap<HostSymbol, Val> = env.storage().persistent().get(&key)?;
    let field = |name: &str| fields.get_unchecked(HostSymbol::new(env, name));
    let list: HostVec<u32> = field("permissions").into_val(env);
    let mut items = vec![Val::VOID.to_val(); list.len() as usize];
    env.vec_unpack_to_slice(list.to_object(), &mut items).unwrap();
    Some(SessionKey {
        public_key: BytesN::from_val(env, &field("public_key")).to_array(),
        expires_at: field("expires_at").into_val(env),
        permissions: items.iter().map(|item| item.into_val(env)).collect(),
    })
}

/// Calls `Persistent::set` with a session key: puts a map that holds its fields under the key, in
/// place of what was there, and changes nothing else. The list of permissions goes into the host in
/// one call, whose cost is linear in its length.
#[verifier::external_body]
pub(crate) fn persistent_set_session_key(
    env: &mut Env,
    key: &Symbol,
    id: &[u8; 32],
    value: &SessionKey,
)
    requires
        in_contract(*old(env)),
        value@.permissions.len() <= u32::MAX,
    ensures
        in_contract(*final(env)),
        granted_auths(*final(env)) == granted_auths(*old(env)),
        ledger(*final(env)) == (Ledger {
            persistent: persistent_entries(*old(env)).insert(
                (key@, id@),
                Entry::SessionKey(value@),
            ),
            ..ledger(*old(env))
        }),
{
    let key = (HostSymbol::new(env, key.as_str()), BytesN::from_array(env, id));
    let public_key = BytesN::from_array(env, &value.public_key);
    let items: Vec<Val> = value.permissions.iter().map(|item| item.into_val(env)).collect();
    let permissions = env.vec_new_from_slice(&items).unwrap();
    let mut fields: HostMap<HostSymbol, Val> = HostMap::new(env);
    fields.set(HostSymbol::new(env, "public_key"), public_key.into_val(env));
    fields.set(HostSymbol::new(env, "expires_at"), value.expires_at.into_val(env));
    fields.set(HostSymbol::new(env, "permissions"), permissions.to_val());
    env.storage().persistent().set(&key, &fields);
}

/// Calls `Persistent::remove`: takes the entry under the key away, where there is one, and changes
/// nothing else.
#[verifier::external_body]
pub(crate) fn persistent_remove(env: &mut Env, key: &Symbol, id: &[u8; 32])
    requires
        in_contract(*old(env)),
    ensures
        in_contract(*final(env)),
        granted_auths(*final(env)) == granted_auths(*old(env)),
        ledger(*final(env)) == (Ledger {
            persistent: persistent_entries(*old(env)).remove((key@, id@)),
            ..ledger(*old(env))
        }),
{
    let key = (HostSymbol::new(env, key.as_str()), BytesN::from_array(env, id));
    env.storage().persistent().remove(&key);
}

/// Calls `Address::require_auth`: demands that the address has authorized the running call with
/// its arguments. It panics where it has not. The storage and the events of the running contract
/// stay as they are; which authorizations the host would still accept afterwards is left open.
#[verifier::external_body]
pub(crate) fn require_auth(env: &mut Env, address: &Address)
    requires
        in_contract(*old(env)),
        granted_auths(*old(env)).contains(address@),
    ensures
        in_contract(*final(env)),
        ledger(*final(env)) == (Ledger {
            demands: demanded_auths(*old(env)).push(address@),
            ..ledger(*old(env))
        }),
{
    let address = match address {
        Address::Account(key) =>
            ScAddress::Account(AccountId(PublicKey::PublicKeyTypeEd25519(Uint256(*key)))),
        Address::Contract(hash) => ScAddress::Contract(soroban_sdk::xdr::Hash(*hash)),
    };
    soroban_sdk::Address::try_from_val(env, &address).unwrap().require_auth();
}

/// Calls `Ledger::timestamp`: gives the close time of the ledger in which the call is running.
#[verifier::external_body]
pub(crate) fn timestamp(env: &Env) -> (now: u64)
    requires
        in_contract(*env),
    ensures
        now == ledger_timestamp(*env),
{
    env.ledger().timestamp()
}

/// Calls `Events::publish` with an address for data: adds the event to those published, and
/// changes nothing else.
#[verifier::external_body]
pub(crate) fn publish_address(env: &mut Env, topic: &Symbol, address: &Address)
    requires
        in_contract(*old(env)),
    ensures
        in_contract(*final(env)),
        granted_auths(*final(env)) == granted_auths(*old(env)),
        ledger(*final(env)) == (Ledger {
            events: published_events(*old(env)).push(
                Event { topic: topic@, data: EventData::Address(address@) },
            ),
            ..ledger(*old(env))
        }),
{
    let address = match address {
        Address::Account(key) =>
            ScAddress::Account(AccountId(PublicKey::PublicKeyTypeEd25519(Uint256(*key)))),
        Address::Contract(hash) => ScAddress::Contract(soroban_sdk::xdr::Hash(*hash)),
    };
    let address = soroban_sdk::Address::try_from_val(env, &address).unwrap();
    env.events().publish((HostSymbol::new(env, topic.as_str()),), address);
}

/// Calls `Events::publish` with a target, the name of a function and a nonce for data: adds the
/// event to those published, and changes nothing else.
#[verifier::external_body]
pub(crate) fn publish_call(
    env: &mut Env,
    topic: &Symbol,
    to: &Address,
    function: &Symbol,
    nonce: u64,
)
    requires
        in_contract(*old(env)),
    ensures
        in_contract(*final(env)),
        granted_auths(*final(env)) == granted_auths(*old(env)),
        ledger(*final(env)) == (Ledger {
            events: published_events(*old(env)).push(
                Event { topic: topic@, data: EventData::Call(to@, function@, nonce) },
            ),
            ..ledger(*old(env))
        }),
{
    let to = match to {
        Address::Account(key) =>
            ScAddress::Account(AccountId(PublicKey::PublicKeyTypeEd25519(Uint256(*key)))),
        Address::Contract(hash) => ScAddress::Contract(soroban_sdk::xdr::Hash(*hash)),
    };
    let to = soroban_sdk::Address::try_from_val(env, &to).unwrap();
    let function = HostSymbol::new(env, function.as_str());
    let topics = (HostSymbol::new(env, topic.as_str()),);
    env.events().publish(topics, (to, function, nonce));
}

/// Calls `Events::publish` with a public key and the time at which it expires for data: adds the
/// event to those published, and changes nothing else.
#[verifier::external_body]
pub(crate) fn publish_key_expiry(
    env: &mut Env,
    topic: &Symbol,
    public_key: &[u8; 32],
    expires_at: u64,
)
    requires
        in_contract(*old(env)),
    ensures
        in_contract(*final(env)),
        granted_auths(*final(env)) == granted_auths(*old(env)),
        ledger(*final(env)) == (Ledger {
            events: published_events(*old(env)).push(
                Event { topic: topic@, data: EventData::KeyExpiry(public_key@, expires_at) },
            ),
            ..ledger(*old(env))
        }),
{
    let topics = (HostSymbol::new(env, topic.as_str()),);
    env.events().publish(topics, (BytesN::from_array(env, public_key), expires_at));
}

/// Calls `Events::publish` with a public key for data: adds the event to those published, and
/// changes nothing else.
#[verifier::external_body]
pub(crate) fn publish_key(env: &mut Env, topic: &Symbol, public_key: &[u8; 32])
    requires
        in_contract(*old(env)),
    ensures
        in_contract(*final(env)),
        granted_auths(*final(env)) == granted_auths(*old(env)),
        ledger(*final(env)) == (Ledger {
            events: published_events(*old(env)).push(
                Event { topic: topic@, data: EventData::Key(public_key@) },
            ),
            ..ledger(*old(env))
        }),
{
    let topics = (HostSymbol::new(env, topic.as_str()),);
    env.events().publish(topics, BytesN::from_array(env, public_key));
}

} // verus!
