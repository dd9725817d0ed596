//! The account, called as a contract in a host.

use ancore_account::account::AncoreAccount;
use ancore_account::error::ContractError;
use ancore_account::events;
use ancore_account::types::{self, SessionKey};
use soroban_sdk::testutils::{Address as _, ContractFunctionSet, EnvTestConfig, Events, Ledger};
use soroban_sdk::xdr::{AccountId, PublicKey, ScAddress, Uint256};
use soroban_sdk::{
    Address, BytesN, Env, EnvBase, Error, FromVal, IntoVal, InvokeError, Map as HostMap, Symbol, TryFromVal, Val, Vec,
};

// ── The contract under test ───────────────────────────────────────────────────

fn plain_address(address: &Address) -> types::Address {
    match ScAddress::from(address) {
        ScAddress::Account(AccountId(PublicKey::PublicKeyTypeEd25519(Uint256(key)))) => {
            types::Address::Account(key)
        }
        ScAddress::Contract(hash) => types::Address::Contract(hash.0),
    }
}

fn sdk_address(env: &Env, address: &types::Address) -> Address {
    let address = match address {
        types::Address::Account(key) => {
            ScAddress::Account(AccountId(PublicKey::PublicKeyTypeEd25519(Uint256(*key))))
        }
        types::Address::Contract(hash) => ScAddress::Contract(soroban_sdk::xdr::Hash(*hash)),
    };
    Address::try_from_val(env, &address).unwrap()
}

fn sdk_symbol(env: &Env, symbol: &types::Symbol) -> Symbol {
    Symbol::new(env, symbol.as_str())
}

fn plain_list(env: &Env, list: &Vec<u32>) -> std::vec::Vec<u32> {
    let mut items = std::vec![Val::VOID.to_val(); list.len() as usize];
    env.vec_unpack_to_slice(list.to_object(), &mut items).unwrap();
    items.iter().map(|item| u32::from_val(env, item)).collect()
}

/// The contract: each function passes its arguments on to the library and its answer back.
struct Contract;

impl ContractFunctionSet for Contract {
    fn call(&self, func: &str, env: Env, args: &[Val]) -> Option<Val> {
        let mut env = env;
        let key = |i: usize| BytesN::<32>::from_val(&env, &args[i]).to_array();
        let address = |i: usize| plain_address(&Address::from_val(&env, &args[i]));
        let result: Result<Val, ContractError> = match func {
            "initialize" => {
                let owner = address(0);
                AncoreAccount::initialize(&mut env, owner).map(|()| Val::VOID.to_val())
            }
            "get_owner" => {
                AncoreAccount::get_owner(&env).map(|owner| sdk_address(&env, &owner).into_val(&env))
            }
            "get_nonce" => AncoreAccount::get_nonce(&env).map(|nonce| nonce.into_val(&env)),
            "execute" => {
                let (caller, to) = (address(0), address(1));
                let function = Symbol::from_val(&env, &args[2]).to_string();
                let forwarded = Vec::<Val>::from_val(&env, &args[3]);
                let session_key = Option::<BytesN<32>>::from_val(&env, &args[4]);
                let expected_nonce = u64::from_val(&env, &args[5]);
                let required_permission = u32::from_val(&env, &args[6]);
                AncoreAccount::execute(
                    &mut env,
                    caller,
                    to,
                    types::Symbol::new(&function).unwrap(),
                    forwarded,
                    session_key.map(|key| key.to_array()),
                    expected_nonce,
                    required_permission,
                )
                .map(|done| done.into_val(&env))
            }
            "add_session_key" => {
                let public_key = key(0);
                let expires_at = u64::from_val(&env, &args[1]);
                let permissions = plain_list(&env, &Vec::<u32>::from_val(&env, &args[2]));
                AncoreAccount::add_session_key(&mut env, public_key, expires_at, permissions)
                    .map(|()| Val::VOID.to_val())
            }
            "revoke_session_key" => {
                let public_key = key(0);
                AncoreAccount::revoke_session_key(&mut env, public_key)
                    .map(|()| Val::VOID.to_val())
            }
            _ => return None,
        };
        Some(match result {
            Ok(value) => value,
            Err(error) => Error::from_contract_error(error.code()).into_val(&env),
        })
    }
}

struct Client {
    env: Env,
    id: Address,
}

impl Client {
    fn call<T: TryFromVal<Env, Val>>(&self, function: &str, args: Vec<Val>) -> T {
        self.env.invoke_contract(&self.id, &Symbol::new(&self.env, function), args)
    }

    /// The code of the contract error with which the call fails; `None` where the host ends it.
    fn refusal(&self, function: &str, args: Vec<Val>) -> Option<u32> {
        let function = Symbol::new(&self.env, function);
        let result: Result<Result<Val, _>, Result<InvokeError, InvokeError>> =
            self.env.try_invoke_contract(&self.id, &function, args);
        match result {
            Err(Ok(InvokeError::Contract(code))) => Some(code),
            Err(_) => None,
            Ok(_) => panic!("the call was carried out"),
        }
    }

    fn initialize(&self, owner: &Address) {
        self.call::<()>("initialize", (owner.clone(),).into_val(&self.env));
    }

    fn get_owner(&self) -> Address {
        self.call("get_owner", ().into_val(&self.env))
    }

    fn get_nonce(&self) -> u64 {
        self.call("get_nonce", ().into_val(&self.env))
    }

    fn execute_args(
        &self,
        caller: &Address,
        to: &Address,
        function: &Symbol,
        args: &Vec<Val>,
        session_key: &Option<BytesN<32>>,
        expected_nonce: &u64,
        required_permission: &u32,
    ) -> Vec<Val> {
        (
            caller.clone(),
            to.clone(),
            function.clone(),
            args.clone(),
            session_key.clone(),
            *expected_nonce,
            *required_permission,
        )
            .into_val(&self.env)
    }

    fn execute(
        &self,
        caller: &Address,
        to: &Address,
        function: &Symbol,
        args: &Vec<Val>,
        session_key: &Option<BytesN<32>>,
        expected_nonce: &u64,
        required_permission: &u32,
    ) -> bool {
        let args = self.execute_args(
            caller,
            to,
            function,
            args,
            session_key,
            expected_nonce,
            required_permission,
        );
        self.call("execute", args)
    }

    fn add_session_key(&self, public_key: &BytesN<32>, expires_at: &u64, permissions: &Vec<u32>) {
        let args = (public_key.clone(), *expires_at, permissions.clone()).into_val(&self.env);
        self.call::<()>("add_session_key", args);
    }

    fn revoke_session_key(&self, public_key: &BytesN<32>) {
        self.call::<()>("revoke_session_key", (public_key.clone(),).into_val(&self.env));
    }

    fn get_session_key(&self, public_key: &BytesN<32>) -> Option<SessionKey> {
        self.env.as_contract(&self.id, || {
            AncoreAccount::get_session_key(&self.env, public_key.to_array())
        })
    }
}

/// A host with the contract deployed, not yet initialized.
fn deploy() -> (Env, Client) {
    let env = Env::new_with_config(EnvTestConfig { capture_snapshot_at_drop: false });
    let id = env.register_contract(None, Contract);
    let client = Client { env: env.clone(), id };
    (env, client)
}

/// A host with the contract deployed and initialized, in which everybody authorizes everything.
fn setup() -> (Env, Client, Address) {
    let (env, client) = deploy();
    let owner = Address::generate(&env);
    client.initialize(&owner);
    env.mock_all_auths();
    (env, client, owner)
}

fn permissions_of(env: &Env, codes: &[u32]) -> Vec<u32> {
    let items: std::vec::Vec<Val> = codes.iter().map(|code| code.into_val(env)).collect();
    let list = env.vec_new_from_slice(&items).unwrap();
    Vec::try_from_val(env, &list).unwrap()
}

// ── Initialization ────────────────────────────────────────────────────────────

#[test]
fn test_initialize() {
    let (env, client) = deploy();

    let owner = Address::generate(&env);
    client.initialize(&owner);

    assert_eq!(client.get_owner(), owner);
    assert_eq!(client.get_nonce(), 0);
}

#[test]
fn test_initialize_emits_event() {
    let (env, client) = deploy();

    let owner = Address::generate(&env);
    client.initialize(&owner);

    let events_list = env.events().all();
    assert_eq!(events_list.len(), 1);
    let (_contract, topics, data) = events_list.get_unchecked(0).clone();
    assert_eq!(topics.len(), 1);

    let topic_symbol: Symbol = FromVal::from_val(&env, &topics.get_unchecked(0));
    assert_eq!(topic_symbol, sdk_symbol(&env, &events::initialized()));

    let event_owner: Address = FromVal::from_val(&env, &data);
    assert_eq!(event_owner, owner);
}

#[test]
#[should_panic(expected = "Error(Contract, #1)")]
fn test_double_initialize() {
    let (env, client) = deploy();

    let owner = Address::generate(&env);
    client.initialize(&owner);
    client.initialize(&owner); // Should panic with contract error #1
}

#[test]
fn second_initialization_changes_nothing() {
    let (env, client, owner) = setup();
    let other = Address::generate(&env);

    assert_eq!(client.refusal("initialize", (other,).into_val(&env)), Some(1));
    assert_eq!(client.get_owner(), owner);
    assert_eq!(client.get_nonce(), 0);
}

#[test]
fn account_owner_is_kept_as_an_account() {
    let (env, client) = deploy();
    let owner = sdk_address(&env, &types::Address::Account([9; 32]));
    client.initialize(&owner);

    assert_eq!(client.get_owner(), owner);
    env.as_contract(&client.id, || {
        assert_eq!(AncoreAccount::get_owner(&env), Ok(types::Address::Account([9; 32])));
    });
    let event_owner: Address = FromVal::from_val(&env, &env.events().all().get_unchecked(0).2);
    assert_eq!(event_owner, owner);
}

#[test]
fn uninitialized_account_refuses_all_but_reads() {
    let (env, client) = deploy();
    env.mock_all_auths();
    let key = BytesN::from_array(&env, &[1u8; 32]);
    let anybody = Address::generate(&env);

    assert_eq!(client.refusal("get_owner", ().into_val(&env)), Some(2));
    assert_eq!(client.get_nonce(), 0);
    let args = client.execute_args(
        &anybody,
        &anybody,
        &Symbol::new(&env, "transfer"),
        &Vec::new(&env),
        &None,
        &7,
        &0,
    );
    assert_eq!(client.refusal("execute", args), Some(2));
    let args = (key.clone(), 1000u64, Vec::<u32>::new(&env)).into_val(&env);
    assert_eq!(client.refusal("add_session_key", args), Some(2));
    assert_eq!(client.refusal("revoke_session_key", (key.clone(),).into_val(&env)), Some(2));
    assert_eq!(client.get_session_key(&key), None);
}

// ── Session keys ──────────────────────────────────────────────────────────────

#[test]
fn test_add_session_key() {
    let (env, client, _owner) = setup();

    let session_pk = BytesN::from_array(&env, &[1u8; 32]);
    let expires_at = 1000u64;
    let permissions = Vec::new(&env);

    client.add_session_key(&session_pk, &expires_at, &permissions);

    let session_key = client.get_session_key(&session_pk);
    assert!(session_key.is_some());
}

#[test]
fn test_add_session_key_emits_event() {
    let (env, client, _owner) = setup();

    let session_pk = BytesN::from_array(&env, &[1u8; 32]);
    let expires_at = 1000u64;
    let permissions = Vec::new(&env);

    client.add_session_key(&session_pk, &expires_at, &permissions);

    let events_list = env.events().all();
    assert!(events_list.len() >= 2);
    let (_contract, topics, data) = events_list.get_unchecked(1).clone();
    assert_eq!(topics.len(), 1);

    let topic_symbol: Symbol = FromVal::from_val(&env, &topics.get_unchecked(0));
    assert_eq!(topic_symbol, sdk_symbol(&env, &events::session_key_added()));

    let data_tuple: (BytesN<32>, u64) = FromVal::from_val(&env, &data);
    assert_eq!(data_tuple.0, session_pk);
    assert_eq!(data_tuple.1, expires_at);
}

#[test]
fn test_revoke_session_key_emits_event() {
    let (env, client, _owner) = setup();

    let session_pk = BytesN::from_array(&env, &[1u8; 32]);
    let expires_at = 1000u64;
    let permissions = Vec::new(&env);

    client.add_session_key(&session_pk, &expires_at, &permissions);
    client.revoke_session_key(&session_pk);

    let events_list = env.events().all();
    assert!(events_list.len() >= 3);
    let (_contract, topics, data) = events_list.get_unchecked(2).clone();
    assert_eq!(topics.len(), 1);

    let topic_symbol: Symbol = FromVal::from_val(&env, &topics.get_unchecked(0));
    assert_eq!(topic_symbol, sdk_symbol(&env, &events::session_key_revoked()));

    let event_pk: BytesN<32> = FromVal::from_val(&env, &data);
    assert_eq!(event_pk, session_pk);
}

#[test]
fn session_key_reads_back_as_added() {
    let (env, client, _owner) = setup();
    let first = BytesN::from_array(&env, &[1u8; 32]);
    let second = BytesN::from_array(&env, &[2u8; 32]);

    client.add_session_key(&first, &1000, &permissions_of(&env, &[3, 1, 3]));
    client.add_session_key(&second, &2000, &permissions_of(&env, &[]));
    let expected =
        SessionKey { public_key: [1; 32], expires_at: 1000, permissions: std::vec![3, 1, 3] };
    assert_eq!(client.get_session_key(&first), Some(expected));

    // A key that is added again replaces what was there, and only that.
    client.add_session_key(&first, &5, &permissions_of(&env, &[8]));
    let expected = SessionKey { public_key: [1; 32], expires_at: 5, permissions: std::vec![8] };
    assert_eq!(client.get_session_key(&first), Some(expected));
    let other =
        SessionKey { public_key: [2; 32], expires_at: 2000, permissions: std::vec::Vec::new() };
    assert_eq!(client.get_session_key(&second), Some(other.clone()));

    client.revoke_session_key(&first);
    assert_eq!(client.get_session_key(&first), None);
    assert_eq!(client.get_session_key(&second), Some(other));
}

#[test]
fn revoking_an_absent_key_is_no_error() {
    let (env, client, _owner) = setup();
    let key = BytesN::from_array(&env, &[1u8; 32]);

    client.revoke_session_key(&key);

    assert_eq!(client.get_session_key(&key), None);
    assert_eq!(env.events().all().len(), 2);
}

#[test]
fn session_keys_need_the_authorization_of_the_owner() {
    let (env, client) = deploy();
    let owner = Address::generate(&env);
    client.initialize(&owner);
    let key = BytesN::from_array(&env, &[1u8; 32]);
    let args: Vec<Val> = (key.clone(), 1000u64, Vec::<u32>::new(&env)).into_val(&env);

    // Nobody has authorized anything: the host ends both calls.
    assert_eq!(client.refusal("add_session_key", args.clone()), None);
    assert_eq!(client.refusal("revoke_session_key", (key.clone(),).into_val(&env)), None);
    assert_eq!(client.get_session_key(&key), None);

    env.mock_all_auths();
    client.call::<()>("add_session_key", args);
    let auths = env.auths();
    assert_eq!(auths.len(), 1);
    assert_eq!(auths[0].0, owner);
    client.revoke_session_key(&key);
    let auths = env.auths();
    assert_eq!(auths.len(), 1);
    assert_eq!(auths[0].0, owner);
}

#[test]
fn entries_have_their_documented_keys() {
    let (env, client, owner) = setup();
    let key = BytesN::from_array(&env, &[1u8; 32]);
    client.add_session_key(&key, &1000, &permissions_of(&env, &[4]));

    env.as_contract(&client.id, || {
        let instance = env.storage().instance();
        let held: Option<Address> = instance.get(&(Symbol::new(&env, "Owner"),));
        assert_eq!(held, Some(owner));
        let held: Option<u64> = instance.get(&(Symbol::new(&env, "Nonce"),));
        assert_eq!(held, Some(0));
        let slot = (Symbol::new(&env, "SessionKey"), key.clone());
        let fields: HostMap<Symbol, Val> = env.storage().persistent().get(&slot).unwrap();
        assert_eq!(fields.len(), 3);
        let field = |name: &str| fields.get_unchecked(Symbol::new(&env, name));
        assert_eq!(BytesN::<32>::from_val(&env, &field("public_key")), key);
        assert_eq!(u64::from_val(&env, &field("expires_at")), 1000);
        assert_eq!(Vec::<u32>::from_val(&env, &field("permissions")), permissions_of(&env, &[4]));
    });
}

// ── Execution by the owner ────────────────────────────────────────────────────

/// Owner can execute; event is emitted with correct (to, function, nonce=0).
#[test]
fn test_execute_emits_event() {
    let (env, client, owner) = setup();

    let to = Address::generate(&env);
    let function = Symbol::new(&env, "transfer");
    let args: Vec<Val> = Vec::new(&env);

    // Owner path: session_key = None, expected_nonce = 0, required_permission ignored.
    client.execute(&owner, &to, &function, &args, &None, &0u64, &0u32);

    let events_list = env.events().all();
    assert!(events_list.len() >= 2);
    let (_contract, topics, data) = events_list.get_unchecked(1).clone();
    assert_eq!(topics.len(), 1);

    let topic_symbol: Symbol = FromVal::from_val(&env, &topics.get_unchecked(0));
    assert_eq!(topic_symbol, sdk_symbol(&env, &events::executed()));

    let data_tuple: (Address, Symbol, u64) = FromVal::from_val(&env, &data);
    assert_eq!(data_tuple.0, to);
    assert_eq!(data_tuple.1, function);
    assert_eq!(data_tuple.2, 0); // nonce before increment
}

/// Passing expected_nonce = 1 when current nonce is 0 must be rejected.
#[test]
#[should_panic(expected = "Error(Contract, #4)")]
fn test_execute_rejects_invalid_nonce() {
    let (env, client, owner) = setup();

    let to = Address::generate(&env);
    let function = Symbol::new(&env, "transfer");
    let args: Vec<Val> = Vec::new(&env);

    // Nonce is 0; passing 1 must panic with InvalidNonce (#4).
    client.execute(&owner, &to, &function, &args, &None, &1u64, &0u32);
}

/// Correct nonce is accepted and incremented to 1 afterward.
#[test]
fn test_execute_validates_nonce_then_increments() {
    let (env, client, owner) = setup();

    assert_eq!(client.get_nonce(), 0);

    let to = Address::generate(&env);
    let function = Symbol::new(&env, "get_nonce");
    let args: Vec<Val> = Vec::new(&env);

    client.execute(&owner, &to, &function, &args, &None, &0u64, &0u32);

    assert_eq!(client.get_nonce(), 1);
}

#[test]
fn owner_needs_no_session_key_and_no_permission() {
    let (env, client, owner) = setup();
    let to = Address::generate(&env);
    let function = Symbol::new(&env, "transfer");
    let args: Vec<Val> = Vec::new(&env);
    let unknown = BytesN::from_array(&env, &[8u8; 32]);

    assert!(client.execute(&owner, &to, &function, &args, &Some(unknown), &0, &77));
    assert!(client.execute(&owner, &to, &function, &args, &None, &1, &78));
    assert_eq!(client.get_nonce(), 2);
}

#[test]
fn execution_cannot_be_replayed() {
    let (env, client, owner) = setup();
    let to = Address::generate(&env);
    let function = Symbol::new(&env, "transfer");
    let args: Vec<Val> = Vec::new(&env);

    client.execute(&owner, &to, &function, &args, &None, &0, &0);
    let again = client.execute_args(&owner, &to, &function, &args, &None, &0, &0);
    assert_eq!(client.refusal("execute", again.clone()), Some(4));
    client.execute(&owner, &to, &function, &args, &None, &1, &0);
    assert_eq!(client.refusal("execute", again), Some(4));
    assert_eq!(client.get_nonce(), 2);
    // One event for the initialization and one for each execution: the refusals left none.
    assert_eq!(env.events().all().len(), 3);
}

#[test]
fn execution_needs_the_authorization_of_the_caller() {
    let (env, client) = deploy();
    let owner = Address::generate(&env);
    client.initialize(&owner);
    let to = Address::generate(&env);
    let function = Symbol::new(&env, "transfer");
    let args: Vec<Val> = Vec::new(&env);

    let request = client.execute_args(&owner, &to, &function, &args, &None, &0, &0);
    assert_eq!(client.refusal("execute", request), None);
    assert_eq!(client.get_nonce(), 0);

    env.mock_all_auths();
    client.execute(&owner, &to, &function, &args, &None, &0, &0);
    let auths = env.auths();
    assert_eq!(auths.len(), 1);
    assert_eq!(auths[0].0, owner);
}

// ── Execution with a session key ──────────────────────────────────────────────

/// A session key holder with the correct permission and a valid (future) expiry
/// can authorize execute().
#[test]
fn test_execute_with_valid_session_key() {
    let (env, client, _owner) = setup();

    // Ledger timestamp starts at 0 in tests; use a future expiry.
    let session_pk = BytesN::from_array(&env, &[2u8; 32]);
    let expires_at = 9999u64; // far future
    let required_permission = 42u32;
    let mut permissions = Vec::new(&env);
    permissions.push_back(required_permission);

    client.add_session_key(&session_pk, &expires_at, &permissions);

    let caller = Address::generate(&env); // non-owner caller
    let to = Address::generate(&env);
    let function = Symbol::new(&env, "transfer");
    let args: Vec<Val> = Vec::new(&env);

    let result = client.execute(
        &caller,
        &to,
        &function,
        &args,
        &Some(session_pk),
        &0u64,
        &required_permission,
    );

    assert!(result);
    // The caller, not the owner, was asked for authorization.
    assert_eq!(env.auths().len(), 1);
    assert_eq!(env.auths()[0].0, caller);
    // Nonce must have incremented.
    assert_eq!(client.get_nonce(), 1);
}

/// A session key whose expires_at <= current ledger timestamp is rejected
/// with SessionKeyExpired (#6).
#[test]
#[should_panic(expected = "Error(Contract, #6)")]
fn test_execute_rejects_expired_session_key() {
    let (env, client, _owner) = setup();

    let session_pk = BytesN::from_array(&env, &[3u8; 32]);
    // expires_at = 100; we will advance the ledger past this.
    let expires_at = 100u64;
    let required_permission = 1u32;
    let mut permissions = Vec::new(&env);
    permissions.push_back(required_permission);

    client.add_session_key(&session_pk, &expires_at, &permissions);

    // Advance ledger timestamp beyond expires_at.
    env.ledger().with_mut(|l| {
        l.timestamp = 200; // 200 > 100 → expired
    });

    let caller = Address::generate(&env);
    let to = Address::generate(&env);
    let function = Symbol::new(&env, "transfer");
    let args: Vec<Val> = Vec::new(&env);

    client.execute(
        &caller,
        &to,
        &function,
        &args,
        &Some(session_pk),
        &0u64,
        &required_permission,
    );
}

/// A session key that does not carry the required permission is rejected
/// with InsufficientPermission (#7).
#[test]
#[should_panic(expected = "Error(Contract, #7)")]
fn test_execute_rejects_session_key_with_wrong_permission() {
    let (env, client, _owner) = setup();

    let session_pk = BytesN::from_array(&env, &[4u8; 32]);
    let expires_at = 9999u64;
    let granted_permission = 10u32;
    let mut permissions = Vec::new(&env);
    permissions.push_back(granted_permission);

    client.add_session_key(&session_pk, &expires_at, &permissions);

    let caller = Address::generate(&env);
    let to = Address::generate(&env);
    let function = Symbol::new(&env, "transfer");
    let args: Vec<Val> = Vec::new(&env);

    // Require permission 99, but the key only carries 10.
    client.execute(
        &caller,
        &to,
        &function,
        &args,
        &Some(session_pk),
        &0u64,
        &99u32, // not in key's permission list
    );
}

/// After revoking a session key, execute() with that key is rejected
/// with SessionKeyNotFound (#5).
#[test]
#[should_panic(expected = "Error(Contract, #5)")]
fn test_execute_rejects_revoked_session_key() {
    let (env, client, _owner) = setup();

    let session_pk = BytesN::from_array(&env, &[5u8; 32]);
    let expires_at = 9999u64;
    let required_permission = 1u32;
    let mut permissions = Vec::new(&env);
    permissions.push_back(required_permission);

    client.add_session_key(&session_pk, &expires_at, &permissions);

    // Owner revokes the key.
    client.revoke_session_key(&session_pk);

    let caller = Address::generate(&env);
    let to = Address::generate(&env);
    let function = Symbol::new(&env, "transfer");
    let args: Vec<Val> = Vec::new(&env);

    // Attempt to use the revoked key — must fail with #5.
    client.execute(
        &caller,
        &to,
        &function,
        &args,
        &Some(session_pk),
        &0u64,
        &required_permission,
    );
}

/// Calling execute() as a non-owner without supplying a session_key (None)
/// is rejected with SessionKeyNotFound (#5).
#[test]
#[should_panic(expected = "Error(Contract, #5)")]
fn test_execute_non_owner_without_session_key_rejected() {
    let (env, client, _owner) = setup();

    let non_owner = Address::generate(&env);
    let to = Address::generate(&env);
    let function = Symbol::new(&env, "transfer");
    let args: Vec<Val> = Vec::new(&env);

    client.execute(
        &non_owner,
        &to,
        &function,
        &args,
        &None, // no session key supplied
        &0u64,
        &0u32,
    );
}

/// A session key with exactly expires_at == ledger timestamp is treated
/// as expired (boundary condition: strictly greater than is required).
#[test]
#[should_panic(expected = "Error(Contract, #6)")]
fn test_execute_rejects_session_key_at_exact_expiry_boundary() {
    let (env, client, _owner) = setup();

    let session_pk = BytesN::from_array(&env, &[6u8; 32]);
    let expires_at = 500u64;
    let required_permission = 1u32;
    let mut permissions = Vec::new(&env);
    permissions.push_back(required_permission);

    client.add_session_key(&session_pk, &expires_at, &permissions);

    // Set ledger timestamp exactly equal to expires_at — should still be rejected.
    env.ledger().with_mut(|l| {
        l.timestamp = expires_at;
    });

    let caller = Address::generate(&env);
    let to = Address::generate(&env);
    let function = Symbol::new(&env, "transfer");
    let args: Vec<Val> = Vec::new(&env);

    client.execute(
        &caller,
        &to,
        &function,
        &args,
        &Some(session_pk),
        &0u64,
        &required_permission,
    );
}

/// Nonce increments correctly across two consecutive session-key executions.
#[test]
fn test_execute_session_key_increments_nonce_consecutively() {
    let (env, client, _owner) = setup();

    let session_pk = BytesN::from_array(&env, &[7u8; 32]);
    let expires_at = 9999u64;
    let required_permission = 5u32;
    let mut permissions = Vec::new(&env);
    permissions.push_back(required_permission);

    client.add_session_key(&session_pk, &expires_at, &permissions);

    let caller = Address::generate(&env);
    let to = Address::generate(&env);
    let function = Symbol::new(&env, "transfer");
    let args: Vec<Val> = Vec::new(&env);

    assert_eq!(client.get_nonce(), 0);

    client.execute(
        &caller,
        &to,
        &function,
        &args,
        &Some(session_pk.clone()),
        &0u64, // first call: expected_nonce = 0
        &required_permission,
    );
    assert_eq!(client.get_nonce(), 1);

    client.execute(
        &caller,
        &to,
        &function,
        &args,
        &Some(session_pk),
        &1u64, // second call: expected_nonce = 1
        &required_permission,
    );
    assert_eq!(client.get_nonce(), 2);
}

#[test]
fn session_key_is_live_until_the_second_before_it_expires() {
    let (env, client, _owner) = setup();
    let key = BytesN::from_array(&env, &[6u8; 32]);
    client.add_session_key(&key, &500, &permissions_of(&env, &[1]));
    let caller = Address::generate(&env);
    let function = Symbol::new(&env, "transfer");
    let args: Vec<Val> = Vec::new(&env);

    env.ledger().with_mut(|l| {
        l.timestamp = 499;
    });
    assert!(client.execute(&caller, &caller, &function, &args, &Some(key.clone()), &0, &1));

    env.ledger().with_mut(|l| {
        l.timestamp = 500;
    });
    let request =
        client.execute_args(&caller, &caller, &function, &args, &Some(key.clone()), &1, &1);
    assert_eq!(client.refusal("execute", request), Some(6));
    // An expired key is reported as such whether or not it carries the permission, and a stale
    // nonce is reported before anything about the key.
    let request =
        client.execute_args(&caller, &caller, &function, &args, &Some(key.clone()), &1, &2);
    assert_eq!(client.refusal("execute", request), Some(6));
    let request = client.execute_args(&caller, &caller, &function, &args, &Some(key), &0, &1);
    assert_eq!(client.refusal("execute", request), Some(4));
}

#[test]
fn authorize_decides_and_changes_nothing() {
    let (env, client, owner) = setup();
    let key = BytesN::from_array(&env, &[6u8; 32]);
    client.add_session_key(&key, &500, &permissions_of(&env, &[1]));
    let owner = plain_address(&owner);
    let other = types::Address::Account([1; 32]);
    let authorize = |caller: &types::Address, key: Option<[u8; 32]>, nonce: u64, permission: u32| {
        env.as_contract(&client.id, || {
            AncoreAccount::authorize(&env, caller, key, nonce, permission)
        })
    };

    assert_eq!(authorize(&owner, None, 0, 9), Ok(0));
    assert_eq!(authorize(&owner, None, 1, 9), Err(ContractError::InvalidNonce));
    assert_eq!(authorize(&other, Some([6; 32]), 0, 1), Ok(0));
    let refusal = Err(ContractError::InsufficientPermission);
    assert_eq!(authorize(&other, Some([6; 32]), 0, 2), refusal);
    assert_eq!(authorize(&other, Some([7; 32]), 0, 1), Err(ContractError::SessionKeyNotFound));
    assert_eq!(authorize(&other, None, 0, 1), Err(ContractError::SessionKeyNotFound));
    assert_eq!(client.get_nonce(), 0);
    assert_eq!(env.events().all().len(), 2);
}

#[test]
fn revoked_key_stays_refused_until_it_is_added_again() {
    let (env, client, owner) = setup();
    let key = BytesN::from_array(&env, &[5u8; 32]);
    let other = BytesN::from_array(&env, &[6u8; 32]);
    let caller = Address::generate(&env);
    let function = Symbol::new(&env, "transfer");
    let args: Vec<Val> = Vec::new(&env);
    client.add_session_key(&key, &9999, &permissions_of(&env, &[1]));
    client.revoke_session_key(&key);

    client.add_session_key(&other, &9999, &permissions_of(&env, &[1]));
    client.execute(&owner, &caller, &function, &args, &None, &0, &0);
    env.ledger().with_mut(|l| {
        l.timestamp = 300;
    });
    let request =
        client.execute_args(&caller, &caller, &function, &args, &Some(key.clone()), &1, &1);
    assert_eq!(client.refusal("execute", request), Some(5));

    client.add_session_key(&key, &301, &permissions_of(&env, &[1]));
    assert!(client.execute(&caller, &caller, &function, &args, &Some(key.clone()), &1, &1));

    // Once expired, a key is never accepted again.
    for now in [301u64, 302, 9999, u64::MAX] {
        env.ledger().with_mut(|l| {
            l.timestamp = now;
        });
        let request =
            client.execute_args(&caller, &caller, &function, &args, &Some(key.clone()), &2, &1);
        assert_eq!(client.refusal("execute", request), Some(6));
    }
}

#[test]
fn operations_keep_to_their_own_data() {
    let (env, client, owner) = setup();
    let key = BytesN::from_array(&env, &[5u8; 32]);
    let function = Symbol::new(&env, "transfer");
    let args: Vec<Val> = Vec::new(&env);
    client.execute(&owner, &owner, &function, &args, &None, &0, &0);

    client.add_session_key(&key, &9999, &permissions_of(&env, &[1]));
    assert_eq!(client.get_nonce(), 1);
    assert_eq!(client.get_owner(), owner);

    let held = client.get_session_key(&key);
    client.execute(&owner, &owner, &function, &args, &None, &1, &0);
    assert_eq!(client.get_session_key(&key), held);
    assert_eq!(client.get_owner(), owner);

    client.revoke_session_key(&key);
    assert_eq!(client.get_nonce(), 2);
    assert_eq!(client.get_owner(), owner);
}

#[test]
fn the_last_nonce_but_one_can_be_used() {
    let (env, client, owner) = setup();
    let function = Symbol::new(&env, "transfer");
    let args: Vec<Val> = Vec::new(&env);
    env.as_contract(&client.id, || {
        env.storage().instance().set(&(Symbol::new(&env, "Nonce"),), &(u64::MAX - 1));
    });

    client.execute(&owner, &owner, &function, &args, &None, &(u64::MAX - 1), &0);
    assert_eq!(client.get_nonce(), u64::MAX);
    let verdict = env.as_contract(&client.id, || {
        AncoreAccount::authorize(&env, &plain_address(&owner), None, u64::MAX, 0)
    });
    assert_eq!(verdict, Ok(u64::MAX));
}

#[test]
fn long_permission_lists_are_stored_and_searched() {
    let (env, client, _owner) = setup();
    let key = BytesN::from_array(&env, &[5u8; 32]);
    let caller = Address::generate(&env);
    let function = Symbol::new(&env, "transfer");
    let args: Vec<Val> = Vec::new(&env);
    let codes: std::vec::Vec<u32> = (0..100_000).collect();

    client.add_session_key(&key, &9999, &permissions_of(&env, &codes));
    assert_eq!(client.get_session_key(&key).unwrap().permissions, codes);

    assert!(client.execute(&caller, &caller, &function, &args, &Some(key.clone()), &0, &99_999));
    let request =
        client.execute_args(&caller, &caller, &function, &args, &Some(key), &1, &100_000);
    assert_eq!(client.refusal("execute", request), Some(7));
}
