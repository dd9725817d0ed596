//! What holds of an account as a whole, over any number of calls.
//!
//! The contracts of [`AncoreAccount`](crate::account::AncoreAccount) say of each operation that the
//! ledger it leaves is the one that [`step`] gives for it. The laws are proved of that function.

use crate::account::presented;
use crate::error::ContractError;
use crate::ledger::{
    demanded_auths, in_contract, instance_entries, ledger, ledger_timestamp, persistent_entries,
    published_events, Entry, Event, EventData, Ledger,
};
use crate::model::{
    execute_readable, execute_verdict, is_initialized, nonce, nonce_readable, owner,
    owner_readable, refusal, session_key, session_key_readable, session_slot, step, Request,
};
use crate::policy::session_key_verdict;
use crate::types::{Address, AddressView, DataKey, SessionKey, SessionKeyView};
use soroban_sdk::Env;
use vstd::prelude::*;

verus! {

/// Whether the account can carry the request out: an accepted execution needs a nonce to move on
/// to.
pub open spec fn has_room(l: Ledger, request: Request) -> bool {
    request is Execute && refusal(l, request) is None ==> nonce(l) < u64::MAX
}

/// The same storage, seen by a call in a ledger that closes at the time `now`.
pub open spec fn at(l: Ledger, now: u64) -> Ledger {
    Ledger { timestamp: now, ..l }
}

/// The ledger after a series of requests, each with the time at which it is made.
pub open spec fn run(l: Ledger, requests: Seq<(u64, Request)>) -> Ledger
    decreases requests.len(),
{
    if requests.len() == 0 {
        l
    } else {
        let (now, request) = requests.last();
        step(at(run(l, requests.drop_last()), now), request)
    }
}

/// Whether the account can carry out every request of a series.
pub open spec fn run_has_room(l: Ledger, requests: Seq<(u64, Request)>) -> bool
    decreases requests.len(),
{
    requests.len() > 0 ==> {
        let (now, request) = requests.last();
        &&& run_has_room(l, requests.drop_last())
        &&& has_room(at(run(l, requests.drop_last()), now), request)
    }
}

/// What every ledger satisfies that an account has made: its entries hold values of the types that
/// it reads them as, owner and nonce come together, and every session key stands under its own
/// public key.
pub open spec fn well_formed(l: Ledger) -> bool {
    &&& owner_readable(l)
    &&& nonce_readable(l)
    &&& is_initialized(l) <==> l.instance.contains_key(DataKey::Nonce.name())
    &&& forall|id: Seq<u8>| #[trigger]
        l.persistent.contains_key(session_slot(id)) ==> {
            &&& l.persistent[session_slot(id)] is SessionKey
            &&& session_key(l, id)->0.public_key == id
        }
}

/// The names of the two instance entries are different.
proof fn lemma_names_differ()
    ensures
        DataKey::Owner.name() != DataKey::Nonce.name(),
{
    reveal_strlit("Owner");
    reveal_strlit("Nonce");
    assert("Owner"@[0] != "Nonce"@[0]);
}

/// The ledger of a contract that has stored nothing is well-formed.
pub proof fn law_blank_ledger_is_well_formed(l: Ledger)
    requires
        l.running,
        l.instance == Map::<Seq<char>, Entry>::empty(),
        l.persistent == Map::<(Seq<char>, Seq<u8>), Entry>::empty(),
    ensures
        well_formed(l),
        owner(l) is None,
        nonce(l) == 0,
        forall|id: Seq<u8>| session_key(l, id) is None,
{
}

/// Every request keeps a well-formed ledger well-formed, and at every time.
pub proof fn law_well_formed_is_kept(l: Ledger, now: u64, request: Request)
    requires
        well_formed(l),
    ensures
        well_formed(step(at(l, now), request)),
{
    lemma_names_differ();
    let next = step(at(l, now), request);
    assert forall|id: Seq<u8>| #[trigger] next.persistent.contains_key(session_slot(id)) implies {
        &&& next.persistent[session_slot(id)] is SessionKey
        &&& session_key(next, id)->0.public_key == id
    } by {
        match request {
            Request::AddSessionKey { key } => {
                if id != key.public_key {
                    assert(session_slot(id) != session_slot(key.public_key));
                    assert(l.persistent.contains_key(session_slot(id)));
                }
            },
            _ => {
                assert(l.persistent.contains_key(session_slot(id)));
            },
        }
    }
}

/// A series of requests keeps a well-formed ledger well-formed.
pub proof fn law_well_formed_is_kept_by_runs(l: Ledger, requests: Seq<(u64, Request)>)
    requires
        well_formed(l),
    ensures
        well_formed(run(l, requests)),
    decreases requests.len(),
{
    if requests.len() > 0 {
        let (now, request) = requests.last();
        law_well_formed_is_kept_by_runs(l, requests.drop_last());
        law_well_formed_is_kept(run(l, requests.drop_last()), now, request);
    }
}

/// In a well-formed ledger everything can be read that an operation reads.
pub proof fn law_well_formed_is_readable(
    l: Ledger,
    caller: AddressView,
    session: Option<Seq<u8>>,
    expected_nonce: u64,
    id: Seq<u8>,
)
    requires
        well_formed(l),
    ensures
        owner_readable(l),
        nonce_readable(l),
        session_key_readable(l, id),
        execute_readable(l, caller, session, expected_nonce),
{
}

/// The event that a request publishes when it is carried out.
pub open spec fn event_of(request: Request) -> Event {
    match request {
        Request::Initialize { owner } => Event {
            topic: "initialized"@,
            data: EventData::Address(owner),
        },
        Request::Execute { to, function, expected_nonce, .. } => Event {
            topic: "executed"@,
            data: EventData::Call(to, function, expected_nonce),
        },
        Request::AddSessionKey { key } => Event {
            topic: "session_key_added"@,
            data: EventData::KeyExpiry(key.public_key, key.expires_at),
        },
        Request::RevokeSessionKey { id } => Event {
            topic: "session_key_revoked"@,
            data: EventData::Key(id),
        },
    }
}

/// A request that is carried out publishes its event, and only that one. A refused request changes
/// nothing: no entry, no event, and nobody's authorization is demanded.
pub proof fn law_one_event_for_each_change(l: Ledger, request: Request)
    ensures
        refusal(l, request) is None ==> step(l, request).events == l.events.push(
            event_of(request),
        ),
        refusal(l, request) is Some ==> step(l, request) == l,
{
}

/// An account gets the owner that it is initialized with, starts with the nonce zero, and cannot
/// be initialized again.
pub proof fn law_initialize_once(l: Ledger, first: AddressView, second: AddressView)
    requires
        !is_initialized(l),
    ensures
        refusal(l, Request::Initialize { owner: first }) is None,
        owner(step(l, Request::Initialize { owner: first })) == Some(first),
        nonce(step(l, Request::Initialize { owner: first })) == 0,
        refusal(
            step(l, Request::Initialize { owner: first }),
            Request::Initialize { owner: second },
        ) == Some(ContractError::AlreadyInitialized),
{
    lemma_names_differ();
}

/// Before it is initialized an account refuses everything else.
pub proof fn law_nothing_before_initialize(l: Ledger, request: Request)
    requires
        !is_initialized(l),
        !(request is Initialize),
    ensures
        refusal(l, request) == Some(ContractError::NotInitialized),
{
}

/// Once there is an owner, no request changes who it is.
pub proof fn law_owner_is_permanent(l: Ledger, now: u64, request: Request)
    requires
        owner(l) is Some,
    ensures
        owner(step(at(l, now), request)) == owner(l),
{
    lemma_names_differ();
}

/// Once there is an owner, no series of requests changes who it is, and none initializes the
/// account again.
pub proof fn law_owner_is_permanent_over_runs(
    l: Ledger,
    requests: Seq<(u64, Request)>,
    other: AddressView,
)
    requires
        owner(l) is Some,
    ensures
        owner(run(l, requests)) == owner(l),
        refusal(run(l, requests), Request::Initialize { owner: other }) == Some(
            ContractError::AlreadyInitialized,
        ),
    decreases requests.len(),
{
    if requests.len() > 0 {
        let (now, request) = requests.last();
        law_owner_is_permanent_over_runs(l, requests.drop_last(), other);
        law_owner_is_permanent(run(l, requests.drop_last()), now, request);
    }
}

/// The owner that an account is initialized with stays its owner over any series of requests.
pub proof fn law_initialize_fixes_the_owner(
    l: Ledger,
    first: AddressView,
    requests: Seq<(u64, Request)>,
)
    requires
        !is_initialized(l),
    ensures
        owner(run(step(l, Request::Initialize { owner: first }), requests)) == Some(first),
{
    law_initialize_once(l, first, first);
    law_owner_is_permanent_over_runs(
        step(l, Request::Initialize { owner: first }),
        requests,
        first,
    );
}

/// The nonce moves on by one with every execution that is carried out, and with nothing else.
pub proof fn law_nonce_counts_executions(l: Ledger, now: u64, request: Request)
    requires
        well_formed(l),
        has_room(at(l, now), request),
    ensures
        nonce(step(at(l, now), request)) == nonce(l) + (if request is Execute && refusal(
            at(l, now),
            request,
        ) is None {
            1int
        } else {
            0
        }),
{
    lemma_names_differ();
}

/// How many executions a series of requests carries out.
pub open spec fn executions(l: Ledger, requests: Seq<(u64, Request)>) -> nat
    decreases requests.len(),
{
    if requests.len() == 0 {
        0
    } else {
        let (now, request) = requests.last();
        let before = requests.drop_last();
        executions(l, before) + (if request is Execute && refusal(
            at(run(l, before), now),
            request,
        ) is None {
            1nat
        } else {
            0
        })
    }
}

/// Over any series of requests the nonce moves on by the number of executions that are carried
/// out. So it never goes back.
pub proof fn law_nonce_counts_executions_over_runs(l: Ledger, requests: Seq<(u64, Request)>)
    requires
        well_formed(l),
        run_has_room(l, requests),
    ensures
        nonce(run(l, requests)) == nonce(l) + executions(l, requests),
        nonce(run(l, requests)) >= nonce(l),
    decreases requests.len(),
{
    if requests.len() > 0 {
        let (now, request) = requests.last();
        law_nonce_counts_executions_over_runs(l, requests.drop_last());
        law_well_formed_is_kept_by_runs(l, requests.drop_last());
        law_nonce_counts_executions(run(l, requests.drop_last()), now, request);
    }
}

/// No replays: once an execution has been carried out under a nonce, every later execution under
/// that nonce is refused, whoever asks for it and whatever happened in between.
pub proof fn law_no_replay(
    l: Ledger,
    accepted: Request,
    between: Seq<(u64, Request)>,
    now: u64,
    replayed: Request,
)
    requires
        well_formed(l),
        accepted is Execute,
        refusal(l, accepted) is None,
        has_room(l, accepted),
        run_has_room(step(l, accepted), between),
        replayed is Execute,
        replayed->expected_nonce == accepted->expected_nonce,
    ensures
        refusal(at(run(step(l, accepted), between), now), replayed) == Some(
            ContractError::InvalidNonce,
        ),
{
    let start = step(l, accepted);
    assert(at(l, l.timestamp) == l);
    law_well_formed_is_kept(l, l.timestamp, accepted);
    law_nonce_counts_executions(l, l.timestamp, accepted);
    law_owner_is_permanent(l, l.timestamp, accepted);
    law_nonce_counts_executions_over_runs(start, between);
    assert(owner(run(start, between)) is Some) by {
        law_owner_is_permanent_over_runs(start, between, owner(l)->0);
    }
}

/// An execution is accepted under exactly one nonce, the current one; and after it, under the
/// next.
pub proof fn law_nonces_are_consecutive(l: Ledger, now: u64, first: Request, second: Request)
    requires
        well_formed(l),
        first is Execute,
        second is Execute,
        refusal(l, first) is None,
        has_room(l, first),
        refusal(at(step(l, first), now), second) is None,
    ensures
        first->expected_nonce == nonce(l),
        second->expected_nonce == nonce(l) + 1,
{
    lemma_names_differ();
}

/// A session key reads back as it was added, and every other key as it was before.
pub proof fn law_added_key_reads_back(l: Ledger, key: SessionKeyView, id: Seq<u8>)
    requires
        owner(l) is Some,
    ensures
        session_key(step(l, Request::AddSessionKey { key }), key.public_key) == Some(key),
        id != key.public_key ==> session_key(step(l, Request::AddSessionKey { key }), id)
            == session_key(l, id),
{
    if id != key.public_key {
        assert(session_slot(id) != session_slot(key.public_key));
    }
}

/// A revoked session key is gone, and every other key is as it was before.
pub proof fn law_revoked_key_is_gone(l: Ledger, revoked: Seq<u8>, id: Seq<u8>)
    requires
        owner(l) is Some,
    ensures
        session_key(step(l, Request::RevokeSessionKey { id: revoked }), revoked) is None,
        id != revoked ==> session_key(step(l, Request::RevokeSessionKey { id: revoked }), id)
            == session_key(l, id),
{
    if id != revoked {
        assert(session_slot(id) != session_slot(revoked));
    }
}

/// Whether a request is about the session key with the public key `id`.
pub open spec fn touches(request: Request, id: Seq<u8>) -> bool {
    match request {
        Request::AddSessionKey { key } => key.public_key == id,
        Request::RevokeSessionKey { id: revoked } => revoked == id,
        _ => false,
    }
}

/// A request leaves the session keys alone that it is not about.
pub proof fn law_untouched_key_is_kept(l: Ledger, now: u64, request: Request, id: Seq<u8>)
    requires
        !touches(request, id),
    ensures
        session_key(step(at(l, now), request), id) == session_key(l, id),
{
    let seen = at(l, now);
    match request {
        Request::AddSessionKey { key } => {
            if refusal(seen, request) is None {
                law_added_key_reads_back(seen, key, id);
            }
        },
        Request::RevokeSessionKey { id: revoked } => {
            if refusal(seen, request) is None {
                law_revoked_key_is_gone(seen, revoked, id);
            }
        },
        _ => {},
    }
}

/// A session key stays as it is over any series of requests that are not about it.
pub proof fn law_untouched_key_is_kept_by_runs(
    l: Ledger,
    id: Seq<u8>,
    requests: Seq<(u64, Request)>,
)
    requires
        forall|i: int| 0 <= i < requests.len() ==> !touches((#[trigger] requests[i]).1, id),
    ensures
        session_key(run(l, requests), id) == session_key(l, id),
    decreases requests.len(),
{
    if requests.len() > 0 {
        let before = requests.drop_last();
        let (now, request) = requests.last();
        assert(!touches(requests[requests.len() - 1].1, id));
        assert forall|i: int| 0 <= i < before.len() implies !touches(
            (#[trigger] before[i]).1,
            id,
        ) by {
            assert(before[i] == requests[i]);
        }
        law_untouched_key_is_kept_by_runs(l, id, before);
        law_untouched_key_is_kept(run(l, before), now, request, id);
    }
}

/// A session key reads back as it was added, until a request is about it again.
pub proof fn law_added_key_reads_back_over_runs(
    l: Ledger,
    key: SessionKeyView,
    requests: Seq<(u64, Request)>,
)
    requires
        owner(l) is Some,
        forall|i: int|
            0 <= i < requests.len() ==> !touches((#[trigger] requests[i]).1, key.public_key),
    ensures
        session_key(run(step(l, Request::AddSessionKey { key }), requests), key.public_key)
            == Some(key),
{
    law_added_key_reads_back(l, key, key.public_key);
    law_untouched_key_is_kept_by_runs(
        step(l, Request::AddSessionKey { key }),
        key.public_key,
        requests,
    );
}

/// A session key that is not registered stays so until it is added.
pub proof fn law_absent_key_stays_absent(l: Ledger, id: Seq<u8>, requests: Seq<(u64, Request)>)
    requires
        session_key(l, id) is None,
        forall|i: int|
            0 <= i < requests.len() ==> ((#[trigger] requests[i]).1 matches Request::AddSessionKey {
                key,
            } ==> key.public_key != id),
    ensures
        session_key(run(l, requests), id) is None,
    decreases requests.len(),
{
    if requests.len() > 0 {
        let before = requests.drop_last();
        let (now, request) = requests.last();
        assert(requests[requests.len() - 1] == requests.last());
        assert forall|i: int| 0 <= i < before.len() implies ((#[trigger] before[i]).1 matches
            Request::AddSessionKey { key } ==> key.public_key != id) by {
            assert(before[i] == requests[i]);
        }
        law_absent_key_stays_absent(l, id, before);
        let middle = at(run(l, before), now);
        if !touches(request, id) {
            law_untouched_key_is_kept(run(l, before), now, request, id);
        } else if refusal(middle, request) is None {
            law_revoked_key_is_gone(middle, id, id);
        }
    }
}

/// A revoked session key is gone until it is added again.
pub proof fn law_revoked_key_is_gone_over_runs(
    l: Ledger,
    revoked: Seq<u8>,
    requests: Seq<(u64, Request)>,
)
    requires
        owner(l) is Some,
        forall|i: int|
            0 <= i < requests.len() ==> ((#[trigger] requests[i]).1 matches Request::AddSessionKey {
                key,
            } ==> key.public_key != revoked),
    ensures
        session_key(run(step(l, Request::RevokeSessionKey { id: revoked }), requests), revoked) is None,
{
    law_revoked_key_is_gone(l, revoked, revoked);
    law_absent_key_stays_absent(
        step(l, Request::RevokeSessionKey { id: revoked }),
        revoked,
        requests,
    );
}

/// A revoked session key lets nobody execute: from its revocation on, and until it is added again,
/// a caller who is not the owner and presents it is refused.
pub proof fn law_revoked_key_is_refused(
    l: Ledger,
    revoked: Seq<u8>,
    between: Seq<(u64, Request)>,
    now: u64,
    request: Request,
)
    requires
        owner(l) is Some,
        forall|i: int|
            0 <= i < between.len() ==> ((#[trigger] between[i]).1 matches Request::AddSessionKey {
                key,
            } ==> key.public_key != revoked),
        request is Execute,
        request->session == Some(revoked),
        owner(l) != Some(request->caller),
    ensures
        ({
            let later = at(
                run(step(l, Request::RevokeSessionKey { id: revoked }), between),
                now,
            );
            refusal(later, request) == Some(
                if request->expected_nonce == nonce(later) {
                    ContractError::SessionKeyNotFound
                } else {
                    ContractError::InvalidNonce
                },
            )
        }),
{
    let start = step(l, Request::RevokeSessionKey { id: revoked });
    law_revoked_key_is_gone_over_runs(l, revoked, between);
    assert(at(l, l.timestamp) == l);
    law_owner_is_permanent(l, l.timestamp, Request::RevokeSessionKey { id: revoked });
    law_owner_is_permanent_over_runs(start, between, owner(l)->0);
    let later = at(run(start, between), now);
    assert(session_key(later, revoked) is None);
}

/// To revoke a session key undoes adding it where it was not registered before: the storage is
/// what it was.
pub proof fn law_revoke_undoes_add(l: Ledger, key: SessionKeyView)
    requires
        well_formed(l),
        owner(l) is Some,
        session_key(l, key.public_key) is None,
    ensures
        ({
            let added = step(l, Request::AddSessionKey { key });
            let revoked = step(added, Request::RevokeSessionKey { id: key.public_key });
            &&& revoked.instance == l.instance
            &&& revoked.persistent == l.persistent
        }),
{
    let added = step(l, Request::AddSessionKey { key });
    let revoked = step(added, Request::RevokeSessionKey { id: key.public_key });
    assert(!l.persistent.contains_key(session_slot(key.public_key)));
    assert(revoked.persistent =~= l.persistent);
}

/// The owner needs no session key and no permission: with the current nonce alone every request
/// of the owner to execute is accepted.
pub proof fn law_owner_needs_only_the_nonce(
    l: Ledger,
    caller: AddressView,
    session: Option<Seq<u8>>,
    expected_nonce: u64,
    required_permission: u32,
)
    requires
        owner(l) == Some(caller),
    ensures
        execute_verdict(l, caller, session, expected_nonce, required_permission) == (if nonce(l)
            == expected_nonce {
            Ok::<u64, ContractError>(expected_nonce)
        } else {
            Err(ContractError::InvalidNonce)
        }),
{
}

/// Anybody else is accepted if and only if they have the current nonce and present a registered
/// session key that expires strictly later than now and carries the permission asked for.
pub proof fn law_others_need_a_live_session_key(
    l: Ledger,
    caller: AddressView,
    session: Option<Seq<u8>>,
    expected_nonce: u64,
    required_permission: u32,
)
    requires
        owner(l) is Some,
        owner(l) != Some(caller),
    ensures
        execute_verdict(l, caller, session, expected_nonce, required_permission) is Ok <==> {
            &&& nonce(l) == expected_nonce
            &&& session is Some
            &&& session_key(l, session->0) matches Some(key) && {
                &&& l.timestamp < key.expires_at
                &&& key.permissions.contains(required_permission)
            }
        },
{
}

/// A session key is dead from the moment on at which it expires, that moment included.
pub proof fn law_expired_key_stays_expired(
    l: Ledger,
    caller: AddressView,
    id: Seq<u8>,
    now: u64,
    required_permission: u32,
)
    requires
        owner(l) is Some,
        owner(l) != Some(caller),
        session_key(l, id) matches Some(key) && key.expires_at <= now,
    ensures
        execute_verdict(at(l, now), caller, Some(id), nonce(l), required_permission) == Err::<
            u64,
            ContractError,
        >(ContractError::SessionKeyExpired),
{
}

/// Whose authorization a request demands: an execution that of the caller, a change of the session
/// keys that of the owner, and the initialization nobody's.
pub proof fn law_authorization_is_demanded(l: Ledger, request: Request)
    requires
        refusal(l, request) is None,
    ensures
        step(l, request).demands == match request {
            Request::Initialize { .. } => l.demands,
            Request::Execute { caller, .. } => l.demands.push(caller),
            Request::AddSessionKey { .. } | Request::RevokeSessionKey { .. } => l.demands.push(
                owner(l)->0,
            ),
        },
{
}

/// Executions and the initialization leave the session keys alone, and changes of the session keys
/// leave the owner and the nonce alone.
pub proof fn law_requests_keep_to_their_own_data(l: Ledger, request: Request)
    ensures
        request is Initialize || request is Execute ==> step(l, request).persistent
            == l.persistent,
        request is AddSessionKey || request is RevokeSessionKey ==> step(l, request).instance
            == l.instance,
{
}

/// No request is answered with the error `Unauthorized`: a missing authorization ends the call.
pub proof fn law_unauthorized_is_never_answered(l: Ledger, request: Request)
    ensures
        refusal(l, request) != Some(ContractError::Unauthorized),
{
}

/// The codes of the errors run from 1 to 7, and no two errors have the same.
pub proof fn law_codes_are_distinct(a: ContractError, b: ContractError)
    ensures
        1 <= a.spec_code() <= 7,
        a.spec_code() == b.spec_code() ==> a == b,
{
}

/// The host is shown as it is: each part of [`ledger`] is what the host holds.
pub proof fn law_ledger_shows_the_host(env: Env)
    ensures
        ledger(env).running == in_contract(env),
        ledger(env).instance == instance_entries(env),
        ledger(env).persistent == persistent_entries(env),
        ledger(env).events == published_events(env),
        ledger(env).demands == demanded_auths(env),
        ledger(env).timestamp == ledger_timestamp(env),
{
}

/// An address stands for its kind and all its bytes, so two addresses that stand for the same are
/// the same.
pub proof fn law_addresses_show_all_their_bytes(a: Address, b: Address)
    ensures
        a matches Address::Account(key) ==> a@ == AddressView::Account(key@),
        a matches Address::Contract(hash) ==> a@ == AddressView::Contract(hash@),
        a@ == b@ <==> {
            ||| a matches Address::Account(x) && b matches Address::Account(y) && x@ == y@
            ||| a matches Address::Contract(x) && b matches Address::Contract(y) && x@ == y@
        },
{
}

/// A session key stands for its public key, its expiry and its permissions, all of them.
pub proof fn law_session_keys_show_all_their_fields(key: SessionKey)
    ensures
        key@.public_key == key.public_key@,
        key@.expires_at == key.expires_at,
        key@.permissions == key.permissions@,
{
}

/// The public key that a caller presents is taken as it is, and two that are taken for the same
/// are the same.
pub proof fn law_presented_key_is_taken_whole(a: [u8; 32], b: [u8; 32])
    ensures
        presented(Some(a)) == Some(a@),
        presented(None) is None,
        presented(Some(a)) == presented(Some(b)) <==> a@ == b@,
{
}

/// Whatever the account can have stored, it can be asked: where the entries hold values of their
/// types, every operation can read what it reads.
pub proof fn law_typed_entries_can_be_read(
    l: Ledger,
    caller: AddressView,
    session: Option<Seq<u8>>,
    expected_nonce: u64,
    id: Seq<u8>,
)
    requires
        l.running,
        l.instance.contains_key("Owner"@) ==> l.instance["Owner"@] is Address,
        l.instance.contains_key("Nonce"@) ==> l.instance["Nonce"@] is Number,
        forall|slot: (Seq<char>, Seq<u8>)| #[trigger]
            l.persistent.contains_key(slot) ==> l.persistent[slot] is SessionKey,
    ensures
        owner_readable(l),
        nonce_readable(l),
        session_key_readable(l, id),
        execute_readable(l, caller, session, expected_nonce),
{
}

/// What is read of the ledger is what stands in it: the owner under `Owner`, the nonce under
/// `Nonce`, and a session key under `SessionKey` and its own public key.
pub proof fn law_reads_give_what_is_entered(l: Ledger, o: AddressView, n: u64, key: SessionKeyView)
    requires
        l.instance.contains_key("Owner"@),
        l.instance["Owner"@] == Entry::Address(o),
        l.instance.contains_key("Nonce"@),
        l.instance["Nonce"@] == Entry::Number(n),
        l.persistent.contains_key(("SessionKey"@, key.public_key)),
        l.persistent[("SessionKey"@, key.public_key)] == Entry::SessionKey(key),
    ensures
        owner(l) == Some(o),
        nonce(l) == n,
        session_key(l, key.public_key) == Some(key),
{
}

/// A session key is refused for its age if and only if it has expired, and for its permissions if
/// and only if it is live and does not list the one asked for.
pub proof fn law_each_refusal_of_a_key_has_its_own_reason(
    key: SessionKeyView,
    now: u64,
    required_permission: u32,
)
    ensures
        session_key_verdict(key, now, required_permission) == Err::<(), ContractError>(
            ContractError::SessionKeyExpired,
        ) <==> key.expires_at <= now,
        session_key_verdict(key, now, required_permission) == Err::<(), ContractError>(
            ContractError::InsufficientPermission,
        ) <==> now < key.expires_at && !key.permissions.contains(required_permission),
        session_key_verdict(key, now, required_permission) == Ok::<(), ContractError>(()) <==> now
            < key.expires_at && key.permissions.contains(required_permission),
{
}

/// To grant the missing permission is all that a live key needs, whatever the time; and no
/// permission revives an expired one.
pub proof fn law_a_granted_permission_mends_only_its_lack(
    key: SessionKeyView,
    now: u64,
    required_permission: u32,
)
    ensures
        ({
            let granted = SessionKeyView {
                permissions: key.permissions.push(required_permission),
                ..key
            };
            match session_key_verdict(key, now, required_permission) {
                Err(ContractError::SessionKeyExpired) => session_key_verdict(
                    granted,
                    now,
                    required_permission,
                ) == Err::<(), ContractError>(ContractError::SessionKeyExpired),
                _ => session_key_verdict(granted, now, required_permission) == Ok::<
                    (),
                    ContractError,
                >(()),
            }
        }),
{
    let permissions = key.permissions.push(required_permission);
    assert(permissions[permissions.len() - 1] == required_permission);
}

/// Every answer to a caller who is not the owner and has the nonce on record, and when it comes.
pub proof fn law_others_are_answered_by_the_key_they_present(
    l: Ledger,
    o: AddressView,
    n: u64,
    caller: AddressView,
    id: Seq<u8>,
    required_permission: u32,
)
    requires
        l.instance.contains_key("Owner"@),
        l.instance["Owner"@] == Entry::Address(o),
        l.instance.contains_key("Nonce"@) ==> l.instance["Nonce"@] == Entry::Number(n),
        !l.instance.contains_key("Nonce"@) ==> n == 0,
        caller != o,
        l.persistent.contains_key(("SessionKey"@, id)) ==> l.persistent[(
            "SessionKey"@,
            id,
        )] is SessionKey,
    ensures
        execute_verdict(l, caller, None, n, required_permission) == Err::<u64, ContractError>(
            ContractError::SessionKeyNotFound,
        ),
        ({
            let verdict = execute_verdict(l, caller, Some(id), n, required_permission);
            let registered = l.persistent.contains_key(("SessionKey"@, id));
            let key = l.persistent[("SessionKey"@, id)]->SessionKey_0;
            let permitted = key.permissions.contains(required_permission);
            &&& verdict == Err::<u64, ContractError>(ContractError::SessionKeyNotFound)
                <==> !registered
            &&& verdict == Err::<u64, ContractError>(ContractError::SessionKeyExpired)
                <==> registered && key.expires_at <= l.timestamp
            &&& verdict == Err::<u64, ContractError>(ContractError::InsufficientPermission)
                <==> registered && l.timestamp < key.expires_at && !permitted
            &&& verdict == Ok::<u64, ContractError>(n) <==> registered && l.timestamp
                < key.expires_at && permitted
        }),
{
}

/// Only the key that is presented counts: two ledgers that agree on the owner, the nonce, the time
/// and the entry of that key answer alike, whatever other keys they hold.
pub proof fn law_only_the_presented_key_counts(
    a: Ledger,
    b: Ledger,
    caller: AddressView,
    id: Seq<u8>,
    expected_nonce: u64,
    required_permission: u32,
)
    requires
        a.instance == b.instance,
        a.timestamp == b.timestamp,
        a.persistent.contains_key(("SessionKey"@, id)) == b.persistent.contains_key(
            ("SessionKey"@, id),
        ),
        a.persistent.contains_key(("SessionKey"@, id)) ==> a.persistent[("SessionKey"@, id)]
            == b.persistent[("SessionKey"@, id)],
    ensures
        execute_verdict(a, caller, Some(id), expected_nonce, required_permission)
            == execute_verdict(b, caller, Some(id), expected_nonce, required_permission),
{
}

/// A key that has been added lets its holder execute, for as long as it lives and with each of its
/// permissions; otherwise the holder is told which of the two is missing. It lets nobody in who
/// presents another key that is not registered.
pub proof fn law_added_key_admits_its_holder_only(
    l: Ledger,
    o: AddressView,
    n: u64,
    key: SessionKeyView,
    other: Seq<u8>,
    now: u64,
    caller: AddressView,
    to: AddressView,
    function: Seq<char>,
    required_permission: u32,
)
    requires
        l.instance.contains_key("Owner"@),
        l.instance["Owner"@] == Entry::Address(o),
        l.instance.contains_key("Nonce"@) ==> l.instance["Nonce"@] == Entry::Number(n),
        !l.instance.contains_key("Nonce"@) ==> n == 0,
        caller != o,
        other != key.public_key,
        !l.persistent.contains_key(("SessionKey"@, other)),
    ensures
        ({
            let later = Ledger { timestamp: now, ..step(l, Request::AddSessionKey { key }) };
            let request = |session: Seq<u8>|
                Request::Execute {
                    caller,
                    to,
                    function,
                    session: Some(session),
                    expected_nonce: n,
                    required_permission,
                };
            &&& refusal(later, request(key.public_key)) is None <==> now < key.expires_at
                && key.permissions.contains(required_permission)
            &&& refusal(later, request(key.public_key)) == Some(ContractError::SessionKeyExpired)
                <==> key.expires_at <= now
            &&& refusal(later, request(key.public_key)) == Some(
                ContractError::InsufficientPermission,
            ) <==> now < key.expires_at && !key.permissions.contains(required_permission)
            &&& refusal(later, request(other)) == Some(ContractError::SessionKeyNotFound)
        }),
{
    assert(("SessionKey"@, other) != ("SessionKey"@, key.public_key));
}

/// What an execution needs of the nonce, and what it does with it: it is accepted only under the
/// nonce on record, leaves that nonce plus one, and publishes the nonce it used, with the target
/// and the function, as its one event.
pub proof fn law_execution_reports_the_nonce_it_used_up(
    l: Ledger,
    caller: AddressView,
    to: AddressView,
    function: Seq<char>,
    session: Option<Seq<u8>>,
    n: u64,
    required_permission: u32,
)
    requires
        n < u64::MAX,
        l.instance.contains_key("Nonce"@) ==> l.instance["Nonce"@] is Number,
        refusal(
            l,
            Request::Execute {
                caller,
                to,
                function,
                session,
                expected_nonce: n,
                required_permission,
            },
        ) is None,
    ensures
        l.instance.contains_key("Nonce"@) ==> l.instance["Nonce"@] == Entry::Number(n),
        !l.instance.contains_key("Nonce"@) ==> n == 0,
        ({
            let next = step(
                l,
                Request::Execute {
                    caller,
                    to,
                    function,
                    session,
                    expected_nonce: n,
                    required_permission,
                },
            );
            &&& next.instance.contains_key("Nonce"@)
            &&& next.instance["Nonce"@] matches Entry::Number(m) && m == n + 1
            &&& next.instance.remove("Nonce"@) == l.instance.remove("Nonce"@)
            &&& next.persistent == l.persistent
            &&& next.events == l.events.push(
                Event { topic: "executed"@, data: EventData::Call(to, function, n) },
            )
            &&& next.demands == l.demands.push(caller)
        }),
{
    let next = step(
        l,
        Request::Execute { caller, to, function, session, expected_nonce: n, required_permission },
    );
    assert(next.instance.remove("Nonce"@) =~= l.instance.remove("Nonce"@));
}

/// Two executions that follow one another publish two different nonces, the second one more than
/// the first.
pub proof fn law_executions_report_different_nonces(
    l: Ledger,
    now: u64,
    first: Request,
    second: Request,
)
    requires
        first is Execute,
        second is Execute,
        first->expected_nonce < u64::MAX,
        refusal(l, first) is None,
        refusal(Ledger { timestamp: now, ..step(l, first) }, second) is None,
    ensures
        ({
            let after = step(Ledger { timestamp: now, ..step(l, first) }, second);
            let len = l.events.len() as int;
            &&& after.events.len() == len + 2
            &&& after.events[len].topic == "executed"@
            &&& after.events[len + 1].topic == "executed"@
            &&& after.events[len].data is Call
            &&& after.events[len + 1].data is Call
            &&& after.events[len + 1].data->Call_2 == after.events[len].data->Call_2 + 1
            &&& after.events[len + 1].data->Call_0 == second->to
            &&& after.events[len + 1].data->Call_1 == second->function
        }),
{
}

/// A key that is added is published as it is kept: the event names the key under which the session
/// key then stands, and the very expiry that it has there.
pub proof fn law_addition_reports_what_is_kept(l: Ledger, o: AddressView, key: SessionKeyView)
    requires
        l.instance.contains_key("Owner"@),
        l.instance["Owner"@] == Entry::Address(o),
    ensures
        ({
            let next = step(l, Request::AddSessionKey { key });
            let named = next.events.last().data->KeyExpiry_0;
            let expiry = next.events.last().data->KeyExpiry_1;
            &&& next.events == l.events.push(
                Event {
                    topic: "session_key_added"@,
                    data: EventData::KeyExpiry(key.public_key, key.expires_at),
                },
            )
            &&& next.persistent.contains_key(("SessionKey"@, named))
            &&& next.persistent[("SessionKey"@, named)] == Entry::SessionKey(key)
            &&& next.persistent[("SessionKey"@, named)]->SessionKey_0.expires_at == expiry
            &&& next.persistent.remove(("SessionKey"@, named)) == l.persistent.remove(
                ("SessionKey"@, named),
            )
            &&& next.instance == l.instance
            &&& next.demands == l.demands.push(o)
        }),
{
    let next = step(l, Request::AddSessionKey { key });
    assert(next.persistent.remove(("SessionKey"@, key.public_key)) =~= l.persistent.remove(
        ("SessionKey"@, key.public_key),
    ));
}

/// A key that is revoked is published by its whole name: the event names the key that is no longer
/// there, and every other entry is.
pub proof fn law_revocation_reports_what_is_taken(l: Ledger, o: AddressView, id: Seq<u8>)
    requires
        l.instance.contains_key("Owner"@),
        l.instance["Owner"@] == Entry::Address(o),
    ensures
        ({
            let next = step(l, Request::RevokeSessionKey { id });
            let named = next.events.last().data->Key_0;
            &&& next.events == l.events.push(
                Event { topic: "session_key_revoked"@, data: EventData::Key(id) },
            )
            &&& !next.persistent.contains_key(("SessionKey"@, named))
            &&& next.persistent == l.persistent.remove(("SessionKey"@, named))
            &&& next.instance == l.instance
            &&& next.demands == l.demands.push(o)
        }),
{
}

/// To revoke a key that was added publishes the same key as adding it did.
pub proof fn law_addition_and_revocation_name_the_same_key(
    l: Ledger,
    o: AddressView,
    key: SessionKeyView,
)
    requires
        l.instance.contains_key("Owner"@),
        l.instance["Owner"@] == Entry::Address(o),
    ensures
        ({
            let added = step(l, Request::AddSessionKey { key });
            let revoked = step(added, Request::RevokeSessionKey { id: key.public_key });
            &&& added.events.last().data is KeyExpiry
            &&& revoked.events.last().data is Key
            &&& revoked.events.last().data->Key_0 == added.events.last().data->KeyExpiry_0
        }),
{
}

/// The first initialization enters the owner it is given and the nonce zero, publishes that owner,
/// and demands nobody's authorization.
pub proof fn law_initialization_reports_the_owner_it_enters(l: Ledger, o: AddressView)
    requires
        !l.instance.contains_key("Owner"@),
    ensures
        ({
            let next = step(l, Request::Initialize { owner: o });
            &&& next.instance == l.instance.insert("Owner"@, Entry::Address(o)).insert(
                "Nonce"@,
                Entry::Number(0),
            )
            &&& next.persistent == l.persistent
            &&& next.events == l.events.push(
                Event { topic: "initialized"@, data: EventData::Address(o) },
            )
            &&& next.demands == l.demands
        }),
{
}

/// Which requests are refused for the owner or the nonce on record, and how.
pub proof fn law_refusals_for_owner_and_nonce(
    l: Ledger,
    o: AddressView,
    n: u64,
    request: Request,
)
    requires
        l.instance.contains_key("Owner"@),
        l.instance["Owner"@] == Entry::Address(o),
        l.instance.contains_key("Nonce"@) ==> l.instance["Nonce"@] == Entry::Number(n),
        !l.instance.contains_key("Nonce"@) ==> n == 0,
    ensures
        request is Initialize ==> refusal(l, request) == Some(ContractError::AlreadyInitialized),
        request is AddSessionKey || request is RevokeSessionKey ==> refusal(l, request) is None,
        request is Execute ==> (refusal(l, request) == Some(ContractError::InvalidNonce)
            <==> request->expected_nonce != n),
        request is Execute && request->caller == o && request->expected_nonce == n ==> refusal(
            l,
            request,
        ) is None,
        refusal(l, request) is Some ==> step(l, request) == l,
{
}

/// A series of requests is carried out one by one, each in a ledger of its own time.
pub proof fn law_runs_go_request_by_request(
    l: Ledger,
    requests: Seq<(u64, Request)>,
    now: u64,
    request: Request,
)
    ensures
        run(l, Seq::<(u64, Request)>::empty()) == l,
        run(l, requests.push((now, request))) == step(
            Ledger { timestamp: now, ..run(l, requests) },
            request,
        ),
{
    assert(requests.push((now, request)).drop_last() =~= requests);
}

} // verus!
