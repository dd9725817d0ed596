//! The ledger as a running contract call sees it through its `Env`.
//!
//! An `Env` is a handle to the host that runs the call. To Verus it is opaque, so the names below
//! stand for what the host holds, and [`ledger`] gathers them into one value, on which the
//! contracts of this library are stated. A function that changes what the host holds takes the
//! `Env` as `&mut`, though the handle itself stays as it is: the value before the call and the
//! value after it then speak of the host before and after. Two handles to one host show the same
//! ledger, which their values do not tell, so a call is to be made through one handle only.

use crate::types::{AddressView, SessionKeyView};
use soroban_sdk::Env;
use vstd::prelude::*;

verus! {

/// The environment of a running contract call.
#[verifier::external_type_specification]
#[verifier::external_body]
pub struct ExEnv(Env);

/// A value that a contract can be called with.
#[verifier::external_type_specification]
#[verifier::external_body]
pub struct ExVal(soroban_sdk::Val);

/// A list of values, held by the host.
#[verifier::external_type_specification]
#[verifier::external_body]
#[verifier::reject_recursive_types(T)]
pub struct ExHostVec<T>(soroban_sdk::Vec<T>);

/// What an entry of a contract's storage holds.
#[verifier::ext_equal]
pub enum Entry {
    /// An address.
    Address(AddressView),
    /// An unsigned 64-bit number.
    Number(u64),
    /// A map from the names of the fields of a session key, and nothing else, to their values.
    SessionKey(SessionKeyView),
    /// A value of any other type.
    Other,
}

/// The data of a published event.
#[verifier::ext_equal]
pub enum EventData {
    /// An address.
    Address(AddressView),
    /// A target, the name of a function and a nonce.
    Call(AddressView, Seq<char>, u64),
    /// A public key and the time at which it expires.
    KeyExpiry(Seq<u8>, u64),
    /// A public key.
    Key(Seq<u8>),
}

/// A published event: its one topic, and its data.
#[verifier::ext_equal]
pub struct Event {
    pub topic: Seq<char>,
    pub data: EventData,
}

/// What the host holds for the contract whose call is running.
#[verifier::ext_equal]
pub struct Ledger {
    pub running: bool,
    pub instance: Map<Seq<char>, Entry>,
    pub persistent: Map<(Seq<char>, Seq<u8>), Entry>,
    pub events: Seq<Event>,
    pub demands: Seq<AddressView>,
    pub timestamp: u64,
}

/// Whether a contract call is running in `env`. Outside of one the host has no storage to offer
/// and nobody to authorize.
pub uninterp spec fn in_contract(env: Env) -> bool;

/// The instance storage of the contract that is running: the entries whose key is a list of one
/// symbol, by the text of that symbol.
pub uninterp spec fn instance_entries(env: Env) -> Map<Seq<char>, Entry>;

/// The persistent storage of the contract that is running: the entries whose key is a list of a
/// symbol and 32 bytes, by the text of that symbol and those bytes.
pub uninterp spec fn persistent_entries(env: Env) -> Map<(Seq<char>, Seq<u8>), Entry>;

/// The events that the contract that is running has published, the oldest first.
pub uninterp spec fn published_events(env: Env) -> Seq<Event>;

/// The addresses whose authorization the contract that is running has demanded and been given,
/// the oldest demand first.
pub uninterp spec fn demanded_auths(env: Env) -> Seq<AddressView>;

/// The addresses of which the host would accept that they have authorized the running call with
/// its arguments, were it asked now. The contract that is running is not one of them: it has no
/// part in deciding on the calls that it serves.
pub uninterp spec fn granted_auths(env: Env) -> Set<AddressView>;

/// The close time of the ledger in which the call is running.
pub uninterp spec fn ledger_timestamp(env: Env) -> u64;

/// What the host behind `env` holds.
pub open spec fn ledger(env: Env) -> Ledger {
    Ledger {
        running: in_contract(env),
        instance: instance_entries(env),
        persistent: persistent_entries(env),
        events: published_events(env),
        demands: demanded_auths(env),
        timestamp: ledger_timestamp(env),
    }
}

} // verus!
