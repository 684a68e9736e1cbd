use vstd::prelude::*;
use crate::events::{Event, EventData, EventView, PayloadView};
use crate::host::{
    host_items, host_vec_len, new_host_vec, persistent_entries, publish, published, push_host_vec,
    read_persistent, runs_contract, write_persistent,
};
use crate::identifier::{is_identifier_text, Identifier};
use soroban_sdk::Env;

verus! {

/// The largest count `get_numbers` accepts.
pub const MAX_NUMBERS: u32 = 10;

/// `a + b`, clamped to `u32::MAX`.
pub open spec fn capped_sum(a: u32, b: u32) -> u32 {
    if a as int + b as int > u32::MAX as int {
        u32::MAX
    } else {
        (a + b) as u32
    }
}

/// The value a storage holding `entries` reports for `key`: the stored value,
/// or zero when the key holds none.
pub open spec fn stored_value(entries: Map<Seq<char>, u32>, key: Seq<char>) -> u32 {
    if entries.contains_key(key) {
        entries[key]
    } else {
        0
    }
}

/// The numbers `1, 2, ..., n`, in order.
pub open spec fn one_to(n: nat) -> Seq<u32> {
    Seq::new(n, |i: int| (i + 1) as u32)
}

/// The entries after storing each `(key, value)` of `stores` in turn.
pub open spec fn after_stores(entries: Map<Seq<char>, u32>, stores: Seq<(Seq<char>, u32)>) -> Map<
    Seq<char>,
    u32,
>
    decreases stores.len(),
{
    if stores.len() == 0 {
        entries
    } else {
        after_stores(entries, stores.drop_last()).insert(stores.last().0, stores.last().1)
    }
}

/// `get_value(key)` right after `store_value(key, value)` gives `value` back:
/// the storage that `store_value` leaves reads as `value` at `key`.
pub proof fn law_get_after_store(entries: Map<Seq<char>, u32>, key: Seq<char>, value: u32)
    ensures
        stored_value(entries.insert(key, value), key) == value,
{
}

/// `get_value(key)` gives zero when `store_value` was never called with `key`:
/// starting from a storage without `key`, any run of stores under other keys
/// leaves a storage that reads as zero at `key`.
pub proof fn law_unstored_key_reads_zero(
    entries: Map<Seq<char>, u32>,
    stores: Seq<(Seq<char>, u32)>,
    key: Seq<char>,
)
    requires
        !entries.contains_key(key),
        forall|i: int| 0 <= i < stores.len() ==> (#[trigger] stores[i]).0 != key,
    ensures
        stored_value(after_stores(entries, stores), key) == 0,
    decreases stores.len(),
{
    if stores.len() > 0 {
        let rest = stores.drop_last();
        assert forall|i: int| 0 <= i < rest.len() implies (#[trigger] rest[i]).0 != key by {
            assert(rest[i] == stores[i]);
        }
        law_unstored_key_reads_zero(entries, rest, key);
        assert(stores.last() == stores[stores.len() - 1]);
    }
}

/// Why `get_numbers` refused its input.
#[derive(Debug, Clone, Copy, PartialEq, Eq, Structural)]
pub enum NumbersError {
    /// The count is above `MAX_NUMBERS`.
    TooLarge,
}

/// A demonstration contract: a greeting, saturating arithmetic, a bounded
/// sequence of numbers and a persistent key/value store kept by the host.
pub struct HelloContract;

impl HelloContract {
    /// Greets `to`: publishes `("hello", ("called", to))` and answers `Hello`.
    pub fn hello(env: &mut Env, to: &Identifier) -> (r: Identifier)
        ensures
            r@ == "Hello"@,
            published(*final(env)) == published(*old(env)).push(
                (EventView { topic: "hello"@, payload: PayloadView::Labelled("called"@, to@) }),
            ),
            persistent_entries(*final(env)) == persistent_entries(*old(env)),
            runs_contract(*final(env)) == runs_contract(*old(env)),
    {
        publish(
            env,
            Event {
                topic: "hello".to_owned(),
                data: EventData::Labelled("called".to_owned(), to.as_str().to_owned()),
            },
        );
        let r = Identifier::new("Hello");
        proof {
            reveal_strlit("Hello");
            assert(is_identifier_text("Hello"@));
        }
        r.unwrap()
    }

    /// `value + 1`, clamped to `u32::MAX`; publishes `("inc", (value, result))`.
    pub fn increment(env: &mut Env, value: u32) -> (r: u32)
        ensures
            r == capped_sum(value, 1),
            r as int == if value < u32::MAX { value + 1 } else { u32::MAX as int },
            published(*final(env)) == published(*old(env)).push(
                (EventView { topic: "inc"@, payload: PayloadView::Pair(value, r) }),
            ),
            persistent_entries(*final(env)) == persistent_entries(*old(env)),
            runs_contract(*final(env)) == runs_contract(*old(env)),
    {
        let result = value.saturating_add(1);
        publish(env, Event { topic: "inc".to_owned(), data: EventData::Pair(value, result) });
        result
    }

    /// Stores `value` under `key` in the persistent storage, replacing what
    /// the key held; publishes `("store", (key, value))`. The host must be
    /// running a contract, whose storage this is.
    pub fn store_value(env: &mut Env, key: &Identifier, value: u32)
        requires
            runs_contract(*old(env)),
        ensures
            persistent_entries(*final(env)) == persistent_entries(*old(env)).insert(key@, value),
            runs_contract(*final(env)),
            published(*final(env)) == published(*old(env)).push(
                (EventView { topic: "store"@, payload: PayloadView::Entry(key@, value) }),
            ),
    {
        write_persistent(env, key.as_str(), value);
        publish(
            env,
            Event { topic: "store".to_owned(), data: EventData::Entry(key.as_str().to_owned(), value) },
        );
    }

    /// The value stored under `key`, or zero when the key holds none. The
    /// host must be running a contract, whose storage this is.
    pub fn get_value(env: &Env, key: &Identifier) -> (r: u32)
        requires
            runs_contract(*env),
        ensures
            r == stored_value(persistent_entries(*env), key@),
    {
        match read_persistent(env, key.as_str()) {
            Some(v) => v,
            None => 0,
        }
    }

    /// `a + b`, clamped to `u32::MAX`; publishes `("add", (a, b, result))`.
    pub fn add(env: &mut Env, a: u32, b: u32) -> (r: u32)
        ensures
            r == capped_sum(a, b),
            r as int == if a as int + b as int <= u32::MAX as int {
                a + b
            } else {
                u32::MAX as int
            },
            published(*final(env)) == published(*old(env)).push(
                (EventView { topic: "add"@, payload: PayloadView::Triple(a, b, r) }),
            ),
            persistent_entries(*final(env)) == persistent_entries(*old(env)),
            runs_contract(*final(env)) == runs_contract(*old(env)),
    {
        let result = a.saturating_add(b);
        publish(env, Event { topic: "add".to_owned(), data: EventData::Triple(a, b, result) });
        result
    }

    /// The numbers `1, 2, ..., n` in a host vector, when `n` is at most
    /// `MAX_NUMBERS`; then publishes `("numbers", (n, length))`. A larger `n`
    /// is refused and nothing is published.
    pub fn get_numbers(env: &mut Env, n: u32) -> (r: Result<soroban_sdk::Vec<u32>, NumbersError>)
        ensures
            n <= MAX_NUMBERS ==> (r matches Ok(v) && host_items(v) == one_to(n as nat)),
            n <= MAX_NUMBERS ==> published(*final(env)) == published(*old(env)).push(
                (EventView { topic: "numbers"@, payload: PayloadView::Pair(n, n) }),
            ),
            n > MAX_NUMBERS ==> r == Err::<soroban_sdk::Vec<u32>, NumbersError>(
                NumbersError::TooLarge,
            ),
            n > MAX_NUMBERS ==> published(*final(env)) == published(*old(env)),
            persistent_entries(*final(env)) == persistent_entries(*old(env)),
            runs_contract(*final(env)) == runs_contract(*old(env)),
    {
        if n > MAX_NUMBERS {
            return Err(NumbersError::TooLarge);
        }
        let mut v = new_host_vec(&*env);
        let mut i: u32 = 1;
        while i <= n
            invariant
                n <= MAX_NUMBERS,
                1 <= i <= n + 1,
                host_items(v) == one_to((i - 1) as nat),
            decreases n + 1 - i,
        {
            push_host_vec(&mut v, i);
            assert(host_items(v) =~= one_to(i as nat));
            i = i + 1;
        }
        let len = host_vec_len(&v);
        publish(env, Event { topic: "numbers".to_owned(), data: EventData::Pair(n, len) });
        Ok(v)
    }

    /// The contract's version, `v1.0.0`.
    pub fn version() -> (r: Identifier)
        ensures
            r@ == "v1.0.0"@,
    {
        let r = Identifier::new("v1.0.0");
        proof {
            reveal_strlit("v1.0.0");
            assert(is_identifier_text("v1.0.0"@));
        }
        r.unwrap()
    }
}

} // verus!
