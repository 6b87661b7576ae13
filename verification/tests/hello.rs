use eventproof::EventFactory;
use soroban_sdk::testutils::Events as _;
use soroban_sdk::Env;
use soroban_sdk::String;

const GREETING: &str = "EventProof initialized successfully!";

#[test]
fn hello_returns_greeting() {
    let env = Env::default();
    let s = EventFactory::hello(env.clone());
    assert_eq!(s, String::from_str(&env, GREETING));
    assert_eq!(s.len(), 36);
    assert!(env.events().all().events().is_empty());
}

#[test]
fn hello_is_deterministic() {
    let env = Env::default();
    let first = EventFactory::hello(env.clone());
    for _ in 0..4u32 {
        assert_eq!(EventFactory::hello(env.clone()), first);
    }
    let other = Env::default();
    assert_eq!(
        EventFactory::hello(other.clone()),
        String::from_str(&other, GREETING)
    );
}

#[test]
fn hello_is_stateless_under_interleaving() {
    let env = Env::default();
    let expected = String::from_str(&env, GREETING);
    assert_eq!(EventFactory::hello(env.clone()), expected);
    // Another, hypothetical stateless entry point doing its own work in
    // between must not change hello's output.
    let _unrelated = String::from_str(&env, "some other native value");
    assert_eq!(EventFactory::hello(env.clone()), expected);
    let _more = String::from_str(&env, "");
    assert_eq!(EventFactory::hello(env.clone()), expected);
}

#[test]
fn hello_writes_no_storage() {
    let env = Env::default();
    let before = env.to_ledger_snapshot();
    let s = EventFactory::hello(env.clone());
    let after = env.to_ledger_snapshot();
    assert_eq!(before, after);
    assert_eq!(s, String::from_str(&env, GREETING));
}

#[test]
fn hello_result_decodable_after_return() {
    let env = Env::default();
    let s = EventFactory::hello(env.clone());
    let mut buf = [0u8; 36];
    s.copy_into_slice(&mut buf);
    assert_eq!(&buf, GREETING.as_bytes());
    assert_eq!(core::str::from_utf8(&buf).unwrap(), GREETING);
}
