use hello_world::contract::{HelloContract, NumbersError};
use hello_world::identifier::Identifier;
use soroban_sdk::testutils::Address as _;
use soroban_sdk::testutils::Events as _;
use soroban_sdk::testutils::EnvTestConfig;
use soroban_sdk::{Address, Env, Vec};

fn new_env() -> Env {
    Env::new_with_config(EnvTestConfig { capture_snapshot_at_drop: false })
}

fn contract_address(env: &Env) -> Address {
    env.register_stellar_asset_contract_v2(Address::generate(env)).address()
}

fn id(s: &str) -> Identifier {
    Identifier::new(s).unwrap()
}

#[test]
fn test_hello() {
    let env = new_env();
    let contract = contract_address(&env);
    let mut host = env.clone();
    let result = env.as_contract(&contract, || HelloContract::hello(&mut host, &id("World")));
    assert_eq!(result, id("Hello"));

    // Check that event was emitted
    let events = env.events().all();
    assert_eq!(events.events().len(), 1);
}

#[test]
fn test_increment() {
    let env = new_env();
    let contract = contract_address(&env);
    env.as_contract(&contract, || {
        let mut host = env.clone();
        assert_eq!(HelloContract::increment(&mut host, 5), 6);
        assert_eq!(HelloContract::increment(&mut host, u32::MAX), u32::MAX);
    });
}

#[test]
fn test_storage() {
    let env = new_env();
    let contract = contract_address(&env);
    env.as_contract(&contract, || {
        let mut host = env.clone();
        let key = id("test_key");
        let value = 42u32;

        HelloContract::store_value(&mut host, &key, value);

        let retrieved = HelloContract::get_value(&env, &key);
        assert_eq!(retrieved, value);

        let missing = HelloContract::get_value(&env, &id("missing"));
        assert_eq!(missing, 0);
    });
}

#[test]
fn test_add() {
    let env = new_env();
    let contract = contract_address(&env);
    env.as_contract(&contract, || {
        let mut host = env.clone();
        assert_eq!(HelloContract::add(&mut host, 10, 20), 30);
        assert_eq!(HelloContract::add(&mut host, u32::MAX, 1), u32::MAX);
    });
}

#[test]
fn test_get_numbers() {
    let env = new_env();
    let contract = contract_address(&env);
    let mut host = env.clone();
    let result = env.as_contract(&contract, || HelloContract::get_numbers(&mut host, 5));
    let expected = Vec::from_array(&env, [1u32, 2, 3, 4, 5]);
    assert_eq!(result, Ok(expected));
}

#[test]
fn test_version() {
    assert_eq!(HelloContract::version(), id("v1.0.0"));
}

#[test]
fn get_numbers_refuses_fifteen_and_publishes_nothing() {
    let env = new_env();
    let contract = contract_address(&env);
    let mut host = env.clone();
    let result = env.as_contract(&contract, || HelloContract::get_numbers(&mut host, 15));
    assert_eq!(result, Err(NumbersError::TooLarge));
    assert_eq!(env.events().all().events().len(), 0);
}

#[test]
fn get_numbers_bounds() {
    let env = new_env();
    let contract = contract_address(&env);
    env.as_contract(&contract, || {
        let mut host = env.clone();
        assert_eq!(HelloContract::get_numbers(&mut host, 0), Ok(Vec::new(&env)));
        let ten = Vec::from_array(&env, [1u32, 2, 3, 4, 5, 6, 7, 8, 9, 10]);
        assert_eq!(HelloContract::get_numbers(&mut host, 10), Ok(ten));
        assert_eq!(HelloContract::get_numbers(&mut host, 11), Err(NumbersError::TooLarge));
        assert_eq!(HelloContract::get_numbers(&mut host, u32::MAX), Err(NumbersError::TooLarge));
    });
}

#[test]
fn get_numbers_publishes_one_event() {
    let env = new_env();
    let contract = contract_address(&env);
    let mut host = env.clone();
    env.as_contract(&contract, || HelloContract::get_numbers(&mut host, 3)).unwrap();
    assert_eq!(env.events().all().events().len(), 1);
}

#[test]
fn add_saturates_at_the_top() {
    let env = new_env();
    let contract = contract_address(&env);
    env.as_contract(&contract, || {
        let mut host = env.clone();
        assert_eq!(HelloContract::add(&mut host, 0, 0), 0);
        assert_eq!(HelloContract::add(&mut host, u32::MAX - 1, 1), u32::MAX);
        assert_eq!(HelloContract::add(&mut host, u32::MAX, u32::MAX), u32::MAX);
        assert_eq!(HelloContract::add(&mut host, 4_000_000_000, 300_000_000), u32::MAX);
        assert_eq!(HelloContract::add(&mut host, 2_000_000_000, 294_967_295), 2_294_967_295);
    });
}

#[test]
fn increment_below_the_top() {
    let env = new_env();
    let contract = contract_address(&env);
    env.as_contract(&contract, || {
        let mut host = env.clone();
        assert_eq!(HelloContract::increment(&mut host, 0), 1);
        assert_eq!(HelloContract::increment(&mut host, u32::MAX - 1), u32::MAX);
    });
}

#[test]
fn store_overwrites_and_keeps_other_keys() {
    let env = new_env();
    let contract = contract_address(&env);
    env.as_contract(&contract, || {
        let mut host = env.clone();
        HelloContract::store_value(&mut host, &id("a"), 1);
        HelloContract::store_value(&mut host, &id("b"), 2);
        HelloContract::store_value(&mut host, &id("a"), 3);
        assert_eq!(HelloContract::get_value(&env, &id("a")), 3);
        assert_eq!(HelloContract::get_value(&env, &id("b")), 2);
        assert_eq!(HelloContract::get_value(&env, &id("c")), 0);
    });
}

#[test]
fn stored_value_reads_back_for_any_key_text() {
    let env = new_env();
    let contract = contract_address(&env);
    env.as_contract(&contract, || {
        let mut host = env.clone();
        let long = id("abcdefghijklmnopqrstuvwxyz_01234");
        HelloContract::store_value(&mut host, &long, u32::MAX);
        HelloContract::store_value(&mut host, &id("v1.0.0"), 7);
        assert_eq!(HelloContract::get_value(&env, &long), u32::MAX);
        assert_eq!(HelloContract::get_value(&env, &id("v1.0.0")), 7);
        assert_eq!(HelloContract::get_value(&env, &id("v1.0.1")), 0);
    });
}

#[test]
fn hello_answers_the_same_for_any_name() {
    let env = new_env();
    let contract = contract_address(&env);
    env.as_contract(&contract, || {
        let mut host = env.clone();
        assert_eq!(HelloContract::hello(&mut host, &id("")), id("Hello"));
        assert_eq!(HelloContract::hello(&mut host, &id("Alice_2")), id("Hello"));
        assert_ne!(HelloContract::hello(&mut host, &id("Hello")), id("World"));
    });
}

#[test]
fn identifier_accepts_only_its_alphabet() {
    assert_eq!(id("abc_XYZ.09").as_str(), "abc_XYZ.09");
    assert!(Identifier::new("").is_some());
    assert!(Identifier::new("has space").is_none());
    assert!(Identifier::new("dash-ed").is_none());
    assert!(Identifier::new("caf\u{e9}").is_none());
    assert!(Identifier::new("abcdefghijklmnopqrstuvwxyz_012345").is_none());
    assert!(Identifier::new("abcdefghijklmnopqrstuvwxyz_01234").is_some());
}

#[test]
fn each_operation_publishes_its_event_and_reads_publish_none() {
    let env = new_env();
    let contract = contract_address(&env);
    env.as_contract(&contract, || {
        let mut host = env.clone();
        HelloContract::hello(&mut host, &id("World"));
        HelloContract::increment(&mut host, 1);
        HelloContract::store_value(&mut host, &id("k"), 9);
        HelloContract::add(&mut host, 2, 3);
        HelloContract::get_numbers(&mut host, 2).unwrap();
        assert_eq!(HelloContract::get_value(&env, &id("k")), 9);
    });
    assert_eq!(env.events().all().events().len(), 5);
}
