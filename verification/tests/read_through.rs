use gallery_cache::{
    complete_fetch, consult_cache, resolve_cached, CacheOutcome, CacheStore, FetchError, Fetched,
    StoreError,
};

/// Drives one whole fetch the way a caller does: consult the cache; on a miss
/// invoke the transport stub (counting the call) and complete the fetch.
fn fetch_with(
    store: &mut CacheStore,
    url: &str,
    transport: &dyn Fn() -> Result<String, String>,
    network_calls: &mut u32,
) -> Result<Fetched, FetchError> {
    match consult_cache(store, url) {
        CacheOutcome::Hit(found) => Ok(found),
        CacheOutcome::Miss => {
            *network_calls += 1;
            let response = transport();
            complete_fetch(store, url, response)
        }
    }
}

fn fresh_store() -> CacheStore {
    CacheStore::in_memory().expect("in-memory store")
}

#[test]
fn miss_then_hit() {
    let mut store = fresh_store();
    let url = "https://example.test/meta";
    let mut calls: u32 = 0;
    let transport = || Ok(String::from("{\"v\":1}"));

    let first = fetch_with(&mut store, url, &transport, &mut calls).expect("first fetch");
    assert_eq!(calls, 1);
    assert_eq!(first.body, "{\"v\":1}");
    let expected: serde_json::Value = serde_json::from_str("{\"v\":1}").unwrap();
    assert_eq!(first.value, expected);

    let second = fetch_with(&mut store, url, &transport, &mut calls).expect("second fetch");
    assert_eq!(calls, 1, "a hit must not touch the network");
    assert_eq!(second.body, first.body);
    assert_eq!(second.value, expected);
}

#[test]
fn two_calls_return_equal_values() {
    let mut store = fresh_store();
    let url = "https://example.test/idempotent";
    let mut calls: u32 = 0;
    let transport = || Ok(String::from("[1,2,3]"));

    let first = fetch_with(&mut store, url, &transport, &mut calls).expect("first fetch");
    let second = fetch_with(&mut store, url, &transport, &mut calls).expect("second fetch");
    assert_eq!(first.body, second.body);
    assert_eq!(first.value, second.value);
    assert_eq!(calls, 1, "the second call performs zero network requests");
}

#[test]
fn cold_fetch_populates_store_with_exact_body() {
    let mut store = fresh_store();
    let url = "https://example.test/populate";
    let mut calls: u32 = 0;
    let body = "{\"name\":\"ext\",\"versions\":[\"1.0\"]}";
    let transport = || Ok(String::from(body));

    fetch_with(&mut store, url, &transport, &mut calls).expect("cold fetch");
    let cached = store.read(url).expect("store read");
    assert_eq!(cached.as_deref(), Some(body));
}

#[test]
fn corrupt_cached_body_falls_back_to_network() {
    let mut store = fresh_store();
    let url = "https://example.test/corrupt";
    store.write(url, "{not json at all").expect("seed write");

    let mut calls: u32 = 0;
    let transport = || Ok(String::from("{\"v\":2}"));
    let fetched = fetch_with(&mut store, url, &transport, &mut calls).expect("fallback fetch");

    assert_eq!(calls, 1, "a corrupt hit must go to the network");
    assert_eq!(fetched.body, "{\"v\":2}");
    let expected: serde_json::Value = serde_json::from_str("{\"v\":2}").unwrap();
    assert_eq!(fetched.value, expected);
}

#[test]
fn network_failure_surfaces_and_writes_nothing() {
    let mut store = fresh_store();
    let url = "https://example.test/down";
    let mut calls: u32 = 0;
    let transport = || Err(String::from("connection refused"));

    let result = fetch_with(&mut store, url, &transport, &mut calls);
    assert_eq!(
        result.unwrap_err(),
        FetchError::Network(String::from("connection refused"))
    );
    assert_eq!(calls, 1);
    assert_eq!(store.read(url).expect("store read"), None, "no entry for a failed fetch");
}

#[test]
fn fresh_body_that_does_not_decode_is_a_hard_error() {
    let mut store = fresh_store();
    let url = "https://example.test/garbled";
    let mut calls: u32 = 0;
    let transport = || Ok(String::from("]["));

    let result = fetch_with(&mut store, url, &transport, &mut calls);
    assert_eq!(result.unwrap_err(), FetchError::Decode);
    assert_eq!(calls, 1);
}

#[test]
fn store_write_then_read_round_trips() {
    let mut store = fresh_store();
    store.write("k1", "body one").expect("write");
    assert_eq!(store.read("k1").expect("read").as_deref(), Some("body one"));
    assert_eq!(store.read("k2").expect("read"), None);
}

#[test]
fn store_overwrites_wholesale() {
    let mut store = fresh_store();
    let url = "https://example.test/overwrite";
    store.write(url, "old").expect("first write");
    store.write(url, "new").expect("second write");
    assert_eq!(store.read(url).expect("read").as_deref(), Some("new"));
}

#[test]
fn urls_are_verbatim_keys() {
    let mut store = fresh_store();
    store.write("https://example.test/a", "one").expect("write");
    assert_eq!(
        store.read("https://example.test/a/").expect("read"),
        None,
        "a trailing slash is a distinct key"
    );
}

#[test]
fn empty_store_read_is_absent_not_an_error() {
    let store = fresh_store();
    assert_eq!(store.read("https://example.test/none").expect("read"), None);
}

#[test]
fn store_failure_on_read_is_a_soft_miss() {
    let outcome = resolve_cached(Err(StoreError::Unavailable));
    assert!(matches!(outcome, CacheOutcome::Miss));
}

#[test]
fn absent_entry_resolves_to_miss() {
    let outcome = resolve_cached(Ok(None));
    assert!(matches!(outcome, CacheOutcome::Miss));
}

#[test]
fn present_decodable_entry_resolves_to_hit() {
    let outcome = resolve_cached(Ok(Some(String::from("7"))));
    match outcome {
        CacheOutcome::Hit(found) => {
            assert_eq!(found.body, "7");
            let expected: serde_json::Value = serde_json::from_str("7").unwrap();
            assert_eq!(found.value, expected);
        }
        CacheOutcome::Miss => panic!("a decodable cached body must be a hit"),
    }
}
