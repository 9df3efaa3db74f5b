use std::collections::HashMap;

use kvcounter::body::{counter_json, error_json};
use kvcounter::handler::{Session, Step};
use kvcounter::key::counter_key;
use kvcounter::route::{path_segments, route, Route};

/// An in-memory store whose increments fail from call number `fail_from` on.
struct FakeStore {
    values: HashMap<String, i32>,
    calls: u32,
    fail_from: u32,
}

impl FakeStore {
    fn new() -> FakeStore {
        FakeStore { values: HashMap::new(), calls: 0, fail_from: u32::MAX }
    }

    fn increment(&mut self, key: &str, delta: i32) -> Result<i32, String> {
        self.calls += 1;
        if self.calls >= self.fail_from {
            return Err("store unavailable".to_string());
        }
        let v = self.values.entry(key.to_string()).or_insert(0);
        *v += delta;
        Ok(*v)
    }

    fn get(&self, key: &str) -> i32 {
        self.values.get(key).copied().unwrap_or(0)
    }
}

/// Runs one request to its end and gives its status and body.
fn serve(store: &mut FakeStore, method: &str, path: &str) -> (u16, String) {
    let (mut session, mut step) = Session::start(method, path);
    loop {
        match step {
            Step::Increment { key, delta } => {
                let outcome = store.increment(&key, delta);
                step = session.resume(outcome);
            }
            Step::Respond(reply) => return (reply.status, reply.body),
        }
    }
}

#[test]
fn key_prefixes_name() {
    assert_eq!(counter_key("foo"), "counter:foo");
    assert_eq!(counter_key("default"), "counter:default");
}

#[test]
fn key_replaces_every_slash() {
    let k = counter_key("a/b/c");
    assert_eq!(k, "counter:a:b:c");
    assert!(!k.contains('/'));
    assert_eq!(counter_key("/"), "counter::");
}

#[test]
fn key_of_empty_name() {
    assert_eq!(counter_key(""), "counter:");
}

#[test]
fn key_derivation_is_stable() {
    assert_eq!(counter_key("x/y"), counter_key("x/y"));
    let once = counter_key("x/y");
    let flat = once.trim_start_matches("counter:").to_string();
    assert_eq!(counter_key(&flat), once);
}

#[test]
fn key_keeps_other_characters() {
    assert_eq!(counter_key("Ab Ü:9"), "counter:Ab Ü:9");
}

#[test]
fn segments_trim_and_split() {
    assert_eq!(path_segments("/api/counter/foo"), vec!["api", "counter", "foo"]);
    assert_eq!(path_segments("//api/counter//"), vec!["api", "counter"]);
    assert_eq!(path_segments("a//b"), vec!["a", "", "b"]);
}

#[test]
fn segments_of_empty_path() {
    assert_eq!(path_segments(""), vec![""]);
    assert_eq!(path_segments("///"), vec![""]);
}

#[test]
fn route_table() {
    assert!(matches!(route("GET", "/api/actor"), Route::Actor));
    assert!(matches!(route("GET", "/api/actor_log"), Route::ActorLog));
    match route("GET", "/api/counter") {
        Route::Increment { name, twice, log } => {
            assert_eq!(name, "default");
            assert!(!twice && !log);
        }
        _ => panic!("expected the default counter"),
    }
    match route("GET", "/api/counter_twice_log/x") {
        Route::Increment { name, twice, log } => {
            assert_eq!(name, "x");
            assert!(twice && log);
        }
        _ => panic!("expected a counter route"),
    }
    match route("GET", "/api/counter_log/y") {
        Route::Increment { name, twice, log } => {
            assert_eq!(name, "y");
            assert!(!twice && log);
        }
        _ => panic!("expected a counter route"),
    }
    assert!(matches!(route("GET", ""), Route::NotFound));
    assert!(matches!(route("GET", "/api/counter/a/b"), Route::NotFound));
    assert!(matches!(route("GET", "/api/unknown/a"), Route::NotFound));
}

#[test]
fn trailing_slash_reaches_default_counter() {
    match route("GET", "/api/counter/") {
        Route::Increment { name, .. } => assert_eq!(name, "default"),
        _ => panic!("expected the default counter"),
    }
}

#[test]
fn actor_is_fixed_whatever_the_store() {
    let mut store = FakeStore::new();
    store.values.insert("counter:default".to_string(), 41);
    let (status, body) = serve(&mut store, "GET", "/api/actor");
    assert_eq!(status, 200);
    assert_eq!(body, "{\"counter\":100}");
    assert_eq!(store.calls, 0);
    assert_eq!(store.get("counter:default"), 41);
}

#[test]
fn actor_log_is_fixed_and_logs() {
    let (session, step) = Session::start("GET", "/api/actor_log");
    assert!(session.logs());
    match step {
        Step::Respond(reply) => {
            assert_eq!(reply.status, 200);
            assert_eq!(reply.body, "{\"counter\":200}");
        }
        _ => panic!("expected a response"),
    }
    let (plain, _) = Session::start("GET", "/api/actor");
    assert!(!plain.logs());
}

#[test]
fn default_counter_adds_one() {
    let mut store = FakeStore::new();
    store.values.insert("counter:default".to_string(), 9);
    let (status, body) = serve(&mut store, "GET", "/api/counter");
    assert_eq!(status, 200);
    assert_eq!(body, "{\"counter\":10}");
    assert_eq!(store.get("counter:default"), 10);
    assert_eq!(store.calls, 1);
}

#[test]
fn named_counter_k_times() {
    let mut store = FakeStore::new();
    for i in 1..=5 {
        let (status, body) = serve(&mut store, "GET", "/api/counter/foo");
        assert_eq!(status, 200);
        assert_eq!(body, format!("{{\"counter\":{}}}", i));
    }
    assert_eq!(store.get("counter:foo"), 5);
    assert_eq!(store.get("counter:default"), 0);
}

#[test]
fn counter_twice_adds_two() {
    let mut store = FakeStore::new();
    let (status, body) = serve(&mut store, "GET", "/api/counter_twice/bar");
    assert_eq!(status, 200);
    assert_eq!(body, "{\"counter\":2}");
    assert_eq!(store.get("counter:bar"), 2);
    assert_eq!(store.calls, 2);
}

#[test]
fn counter_twice_second_failure() {
    let mut store = FakeStore::new();
    store.fail_from = 2;
    let (status, body) = serve(&mut store, "GET", "/api/counter_twice/bar");
    assert_eq!(status, 500);
    assert_eq!(body, "{\"error\":\"store unavailable\"}");
    assert_eq!(store.get("counter:bar"), 1);
}

#[test]
fn counter_twice_first_failure() {
    let mut store = FakeStore::new();
    store.fail_from = 1;
    let (status, body) = serve(&mut store, "GET", "/api/counter_twice_log/bar");
    assert_eq!(status, 500);
    assert_eq!(body, "{\"error\":\"store unavailable\"}");
    assert_eq!(store.calls, 1);
    assert_eq!(store.get("counter:bar"), 0);
}

#[test]
fn single_counter_failure_is_500() {
    let mut store = FakeStore::new();
    store.fail_from = 1;
    let (status, body) = serve(&mut store, "GET", "/api/counter_log/z");
    assert_eq!(status, 500);
    assert_eq!(body, "{\"error\":\"store unavailable\"}");
}

#[test]
fn counter_route_asks_for_its_key() {
    let (_, step) = Session::start("GET", "/api/counter/a");
    match step {
        Step::Increment { key, delta } => {
            assert_eq!(key, "counter:a");
            assert_eq!(delta, 1);
        }
        _ => panic!("expected an increment"),
    }
}

#[test]
fn post_is_not_found() {
    let paths = [
        "/api/counter",
        "/api/actor",
        "/api/actor_log",
        "/api/counter_log/a",
        "/api/counter_twice/a",
        "/api/counter_twice_log/a",
        "/api/counter/a",
    ];
    for p in paths {
        let mut store = FakeStore::new();
        let (status, body) = serve(&mut store, "POST", p);
        assert_eq!(status, 404);
        assert_eq!(body, "");
        assert_eq!(store.calls, 0);
    }
}

#[test]
fn unknown_path_is_not_found() {
    let mut store = FakeStore::new();
    let (status, body) = serve(&mut store, "GET", "/nonexistent/path");
    assert_eq!(status, 404);
    assert_eq!(body, "");
}

#[test]
fn counter_body_values() {
    assert_eq!(counter_json(0), "{\"counter\":0}");
    assert_eq!(counter_json(-5), "{\"counter\":-5}");
    assert_eq!(counter_json(i32::MAX), "{\"counter\":2147483647}");
    assert_eq!(counter_json(i32::MIN), "{\"counter\":-2147483648}");
}

#[test]
fn error_body_escapes() {
    assert_eq!(error_json("boom"), "{\"error\":\"boom\"}");
    assert_eq!(error_json("say \"hi\"\n"), "{\"error\":\"say \\\"hi\\\"\\n\"}");
    assert_eq!(error_json(""), "{\"error\":\"\"}");
    assert_eq!(error_json("a\\b\tc\r\u{8}\u{c}"), "{\"error\":\"a\\\\b\\tc\\r\\b\\f\"}");
    assert_eq!(error_json("\u{1}\u{1f}/é"), "{\"error\":\"\\u0001\\u001f/é\"}");
}
