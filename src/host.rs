use vstd::prelude::*;
use crate::events::{Event, EventData, EventView};
use soroban_sdk::String as HostString;

verus! {

/// The host environment: a handle on the running contract's storage and on
/// the host's event log.
#[verifier::external_type_specification]
#[verifier::external_body]
pub struct ExEnv(soroban_sdk::Env);

/// A vector held by the host.
#[verifier::external_type_specification]
#[verifier::external_body]
#[verifier::reject_recursive_types(T)]
pub struct ExHostVec<T>(soroban_sdk::Vec<T>);

/// The entries of the running contract's persistent storage, keyed by the
/// text of an identifier. A contract's storage is written by that contract
/// alone, and this library stores one `u32` under each key.
pub uninterp spec fn persistent_entries(env: soroban_sdk::Env) -> Map<Seq<char>, u32>;

/// Whether the host is running a contract, which gives it a persistent
/// storage to read and write.
pub uninterp spec fn runs_contract(env: soroban_sdk::Env) -> bool;

/// The contract events the host has recorded, oldest first.
pub uninterp spec fn published(env: soroban_sdk::Env) -> Seq<EventView>;

/// The numbers a host vector holds, in order.
pub uninterp spec fn host_items(v: soroban_sdk::Vec<u32>) -> Seq<u32>;

/// Relies on `soroban_sdk::storage::Persistent::get`, with the key written as
/// a host string: `Some` of the value stored under the key, or `None` when
/// there is none.
#[verifier::external_body]
pub(crate) fn read_persistent(env: &soroban_sdk::Env, key: &str) -> (r: Option<u32>)
    requires
        runs_contract(*env),
    ensures
        r == (if persistent_entries(*env).contains_key(key@) {
            Some(persistent_entries(*env)[key@])
        } else {
            None::<u32>
        }),
{
    env.storage().persistent().get(&HostString::from_str(env, key))
}

/// Relies on `soroban_sdk::storage::Persistent::set`, with the key written as
/// a host string: the value replaces whatever the key held, and no other
/// entry changes.
#[verifier::external_body]
pub(crate) fn write_persistent(env: &mut soroban_sdk::Env, key: &str, value: u32)
    requires
        runs_contract(*old(env)),
    ensures
        persistent_entries(*final(env)) == persistent_entries(*old(env)).insert(key@, value),
        runs_contract(*final(env)),
        published(*final(env)) == published(*old(env)),
{
    env.storage().persistent().set(&HostString::from_str(env, key), &value)
}

/// Relies on `soroban_sdk::Vec::new`: a new vector is empty.
#[verifier::external_body]
pub(crate) fn new_host_vec(env: &soroban_sdk::Env) -> (r: soroban_sdk::Vec<u32>)
    ensures
        host_items(r) == Seq::<u32>::empty(),
{
    soroban_sdk::Vec::new(env)
}

/// Relies on `soroban_sdk::Vec::push_back`: the number is appended at the end.
#[verifier::external_body]
pub(crate) fn push_host_vec(v: &mut soroban_sdk::Vec<u32>, x: u32)
    requires
        host_items(*old(v)).len() < u32::MAX,
    ensures
        host_items(*final(v)) == host_items(*old(v)).push(x),
{
    v.push_back(x)
}

/// Relies on `soroban_sdk::Vec::len`: the number of items the vector holds.
#[verifier::external_body]
pub(crate) fn host_vec_len(v: &soroban_sdk::Vec<u32>) -> (r: u32)
    ensures
        r as int == host_items(*v).len(),
{
    v.len()
}

/// Relies on `soroban_sdk::events::Events::publish`: appends the event to the
/// host's log of contract events, with its topic as a one-element topic list
/// and its payload as a tuple. Storage is left as it was.
#[verifier::external_body]
#[allow(deprecated)]
pub(crate) fn publish(env: &mut soroban_sdk::Env, event: Event)
    ensures
        published(*final(env)) == published(*old(env)).push(event@),
        persistent_entries(*final(env)) == persistent_entries(*old(env)),
        runs_contract(*final(env)) == runs_contract(*old(env)),
{
    let topics = (HostString::from_str(env, &event.topic),);
    match event.data {
        EventData::Labelled(a, b) => {
            env.events().publish(topics, (HostString::from_str(env, &a), HostString::from_str(env, &b)))
        },
        EventData::Pair(a, b) => env.events().publish(topics, (a, b)),
        EventData::Entry(k, v) => env.events().publish(topics, (HostString::from_str(env, &k), v)),
        EventData::Triple(a, b, c) => env.events().publish(topics, (a, b, c)),
    }
}

} // verus!
