use vstd::prelude::*;
use crate::body::{counter_body, error_body};
use crate::handler::{first_step_of, increments_of, next_step_of, StepView};
use crate::key::key_of;
use crate::route::{route_of, segments_of, RouteView};

verus! {

/// The value of `key` in a store; a key that is missing counts as 0.
pub open spec fn value_in(store: Map<Seq<char>, int>, key: Seq<char>) -> int {
    if store.contains_key(key) {
        store[key]
    } else {
        0
    }
}

/// The store after an atomic increment of `key` by `delta`.
pub open spec fn bumped(store: Map<Seq<char>, int>, key: Seq<char>, delta: int) -> Map<Seq<char>, int> {
    store.insert(key, value_in(store, key) + delta)
}

/// Carries out `step` of a request on route `r` against `store`, and what
/// follows it, for at most `fuel` store calls. Store calls are numbered from
/// `issued`; those numbered `fail_from` or later fail with `err` and change
/// nothing. Gives the store and the final step.
pub open spec fn drive(
    r: RouteView,
    store: Map<Seq<char>, int>,
    step: StepView,
    issued: nat,
    fuel: nat,
    fail_from: nat,
    err: Seq<char>,
) -> (Map<Seq<char>, int>, StepView)
    decreases fuel,
{
    match step {
        StepView::Increment { key, delta } => if fuel == 0 {
            (store, step)
        } else if issued >= fail_from {
            drive(r, store, next_step_of(r, issued, Err(err)), issued + 1, (fuel - 1) as nat, fail_from, err)
        } else {
            let after = bumped(store, key, delta);
            drive(
                r,
                after,
                next_step_of(r, issued, Ok(value_in(after, key))),
                issued + 1,
                (fuel - 1) as nat,
                fail_from,
                err,
            )
        },
        _ => (store, step),
    }
}

/// A whole request on route `r`, against a store whose calls fail from the
/// `fail_from`-th on.
pub open spec fn serve(r: RouteView, store: Map<Seq<char>, int>, fail_from: nat, err: Seq<char>) -> (
    Map<Seq<char>, int>,
    StepView,
) {
    drive(r, store, first_step_of(r), 1, 2, fail_from, err)
}

/// A whole request on route `r` against a store whose calls all succeed.
pub open spec fn serve_ok(r: RouteView, store: Map<Seq<char>, int>) -> (Map<Seq<char>, int>, StepView) {
    serve(r, store, increments_of(r) + 1, Seq::empty())
}

/// The store after `k` requests on route `r` one after another, all store calls succeeding.
pub open spec fn serve_times(r: RouteView, store: Map<Seq<char>, int>, k: nat) -> Map<Seq<char>, int>
    decreases k,
{
    if k == 0 {
        store
    } else {
        serve_ok(r, serve_times(r, store, (k - 1) as nat)).0
    }
}

/// The literal segments of the routing table are distinct words.
proof fn lemma_route_words()
    ensures
        "counter"@ != "actor"@,
        "counter"@ != "actor_log"@,
        "actor"@ != "actor_log"@,
        "counter"@ != "counter_log"@,
        "counter"@ != "counter_twice"@,
        "counter"@ != "counter_twice_log"@,
        "counter_log"@ != "counter_twice"@,
        "counter_log"@ != "counter_twice_log"@,
        "counter_twice"@ != "counter_twice_log"@,
{
    reveal_strlit("counter");
    reveal_strlit("actor");
    reveal_strlit("actor_log");
    reveal_strlit("counter_log");
    reveal_strlit("counter_twice");
    reveal_strlit("counter_twice_log");
    assert("counter"@.len() != "actor"@.len());
    assert("counter"@.len() != "actor_log"@.len());
    assert("actor"@.len() != "actor_log"@.len());
    assert("counter"@.len() != "counter_log"@.len());
    assert("counter"@.len() != "counter_twice"@.len());
    assert("counter"@.len() != "counter_twice_log"@.len());
    assert("counter_log"@.len() != "counter_twice"@.len());
    assert("counter_log"@.len() != "counter_twice_log"@.len());
    assert("counter_twice"@.len() != "counter_twice_log"@.len());
}

/// `GET` on a path whose segments are `api/actor` answers 200 with
/// `{"counter":100}` and leaves the store as it was, whatever it holds.
pub proof fn lemma_actor_fixed(path: Seq<char>, store: Map<Seq<char>, int>)
    requires
        segments_of(path) == seq!["api"@, "actor"@],
    ensures
        serve_ok(route_of("GET"@, segments_of(path)), store) == (
            store,
            StepView::Respond { status: 200, body: counter_body(100) },
        ),
{
    lemma_route_words();
    let segs = segments_of(path);
    assert(segs[0] == "api"@ && segs[1] == "actor"@);
    assert(route_of("GET"@, segs) == RouteView::Actor);
}

/// `GET` on a path whose segments are `api/counter` adds exactly 1 to
/// `counter:default` and answers 200 with the store's new value.
pub proof fn lemma_default_counter(path: Seq<char>, store: Map<Seq<char>, int>)
    requires
        segments_of(path) == seq!["api"@, "counter"@],
    ensures
        ({
            let key = key_of("default"@);
            serve_ok(route_of("GET"@, segments_of(path)), store) == (
                bumped(store, key, 1),
                StepView::Respond { status: 200, body: counter_body(value_in(store, key) + 1) },
            )
        }),
{
    let key = key_of("default"@);
    let segs = segments_of(path);
    assert(segs[0] == "api"@ && segs[1] == "counter"@);
    let r = route_of("GET"@, segs);
    assert(r == RouteView::Increment { name: "default"@, twice: false, log: false });
    let after = bumped(store, key, 1);
    assert(value_in(after, key) == value_in(store, key) + 1);
    reveal_with_fuel(drive, 2);
}

/// The route of `GET` on a path whose segments are `api/counter/<name>`.
pub open spec fn named_counter_route(name: Seq<char>) -> RouteView {
    RouteView::Increment { name, twice: false, log: false }
}

/// `GET` on `api/counter/<name>` adds exactly 1 to the name's key.
pub proof fn lemma_named_counter(path: Seq<char>, name: Seq<char>, store: Map<Seq<char>, int>)
    requires
        segments_of(path) == seq!["api"@, "counter"@, name],
    ensures
        route_of("GET"@, segments_of(path)) == named_counter_route(name),
        serve_ok(named_counter_route(name), store) == (
            bumped(store, key_of(name), 1),
            StepView::Respond {
                status: 200,
                body: counter_body(value_in(store, key_of(name)) + 1),
            },
        ),
{
    lemma_route_words();
    let segs = segments_of(path);
    assert(segs[0] == "api"@ && segs[1] == "counter"@ && segs[2] == name);
    assert(value_in(bumped(store, key_of(name), 1), key_of(name)) == value_in(store, key_of(name)) + 1);
    reveal_with_fuel(drive, 2);
}

/// `k` requests `GET` on `api/counter/<name>` one after another add exactly
/// `k` to the name's key and leave every other key as it was.
pub proof fn lemma_named_counter_repeated(path: Seq<char>, name: Seq<char>, store: Map<Seq<char>, int>, k: nat)
    requires
        segments_of(path) == seq!["api"@, "counter"@, name],
    ensures
        value_in(serve_times(route_of("GET"@, segments_of(path)), store, k), key_of(name))
            == value_in(store, key_of(name)) + k,
        forall|other: Seq<char>|
            other != key_of(name) ==> value_in(
                #[trigger] serve_times(route_of("GET"@, segments_of(path)), store, k),
                other,
            ) == value_in(store, other),
    decreases k,
{
    lemma_named_counter(path, name, store);
    if k > 0 {
        let r = route_of("GET"@, segments_of(path));
        lemma_named_counter_repeated(path, name, store, (k - 1) as nat);
        let before = serve_times(r, store, (k - 1) as nat);
        lemma_named_counter(path, name, before);
        assert(serve_times(r, store, k) == bumped(before, key_of(name), 1));
        assert forall|other: Seq<char>| other != key_of(name) implies value_in(
            #[trigger] serve_times(r, store, k),
            other,
        ) == value_in(store, other) by {
            assert(value_in(bumped(before, key_of(name), 1), other) == value_in(before, other));
        }
    }
}

/// `GET` on `api/counter_twice/<name>` makes two increments of 1 on the
/// name's key. When both succeed the key gains 2 and the answer is 200 with
/// the new value; when the second fails the key gains 1 and the answer is 500
/// with the store's message; when the first fails the answer is 500 with the
/// store's message, the key is unchanged and the second is never made.
pub proof fn lemma_counter_twice(path: Seq<char>, name: Seq<char>, store: Map<Seq<char>, int>, err: Seq<char>)
    requires
        segments_of(path) == seq!["api"@, "counter_twice"@, name],
    ensures
        ({
            let r = route_of("GET"@, segments_of(path));
            let key = key_of(name);
            &&& serve_ok(r, store) == (
                store.insert(key, value_in(store, key) + 2),
                StepView::Respond { status: 200, body: counter_body(value_in(store, key) + 2) },
            )
            &&& serve(r, store, 2, err) == (
                bumped(store, key, 1),
                StepView::Respond { status: 500, body: error_body(err) },
            )
            &&& serve(r, store, 1, err) == (
                store,
                StepView::Respond { status: 500, body: error_body(err) },
            )
            &&& next_step_of(r, 1, Err(err)) == StepView::Respond { status: 500, body: error_body(err) }
        }),
{
    lemma_route_words();
    let segs = segments_of(path);
    assert(segs[0] == "api"@ && segs[1] == "counter_twice"@ && segs[2] == name);
    reveal_with_fuel(drive, 3);
    let key = key_of(name);
    let once = bumped(store, key, 1);
    assert(value_in(once, key) == value_in(store, key) + 1);
    assert(value_in(bumped(once, key, 1), key) == value_in(store, key) + 2);
    assert(bumped(once, key, 1) =~= store.insert(key, value_in(store, key) + 2));
}

/// A request whose method is not `GET` answers 404 with an empty body and
/// leaves the store as it was, whatever its path and however the store behaves.
pub proof fn lemma_other_method_not_found(
    method: Seq<char>,
    path: Seq<char>,
    store: Map<Seq<char>, int>,
    fail_from: nat,
    err: Seq<char>,
)
    requires
        method != "GET"@,
    ensures
        serve(route_of(method, segments_of(path)), store, fail_from, err) == (
            store,
            StepView::Respond { status: 404, body: Seq::<char>::empty() },
        ),
{
}

} // verus!
