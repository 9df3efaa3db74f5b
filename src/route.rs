use vstd::prelude::*;
use crate::text::{chars_of, is_word, string_of};

verus! {

/// The path with every leading and trailing `/` removed.
pub open spec fn trim_slashes(s: Seq<char>) -> Seq<char>
    decreases s.len(),
{
    if s.len() > 0 && s[0] == '/' {
        trim_slashes(s.drop_first())
    } else if s.len() > 0 && s.last() == '/' {
        trim_slashes(s.drop_last())
    } else {
        s
    }
}

/// The pieces between the `/` of the first `n` characters of `s`, read left to
/// right: a `/` closes the current piece and opens an empty one.
pub open spec fn split_upto(s: Seq<char>, n: nat) -> Seq<Seq<char>>
    decreases n,
{
    if n == 0 {
        seq![Seq::<char>::empty()]
    } else {
        let prev = split_upto(s, (n - 1) as nat);
        if s[n - 1] == '/' {
            prev.push(Seq::<char>::empty())
        } else {
            prev.update(prev.len() - 1, prev.last().push(s[n - 1]))
        }
    }
}

/// The pieces of `s` between its `/`; there is always at least one.
pub open spec fn split_slashes(s: Seq<char>) -> Seq<Seq<char>> {
    split_upto(s, s.len())
}

/// The segments of a request path: outer slashes trimmed, then split on `/`.
pub open spec fn segments_of(path: Seq<char>) -> Seq<Seq<char>> {
    split_slashes(trim_slashes(path))
}

/// The operation that a request asks for.
pub enum Route {
    /// A fixed diagnostic payload, `counter` 100, with no store access.
    Actor,
    /// Four log lines, then a fixed diagnostic payload, `counter` 200.
    ActorLog,
    /// Increment the counter `name` by one, once or `twice`, after the four
    /// log lines when `log` is set.
    Increment { name: String, twice: bool, log: bool },
    /// No route matches: 404 with an empty body.
    NotFound,
}

/// A route with its counter name as characters.
pub ghost enum RouteView {
    Actor,
    ActorLog,
    Increment { name: Seq<char>, twice: bool, log: bool },
    NotFound,
}

impl View for Route {
    type V = RouteView;

    open spec fn view(&self) -> RouteView {
        match self {
            Route::Actor => RouteView::Actor,
            Route::ActorLog => RouteView::ActorLog,
            Route::Increment { name, twice, log } => RouteView::Increment {
                name: name@,
                twice: *twice,
                log: *log,
            },
            Route::NotFound => RouteView::NotFound,
        }
    }
}

/// The routing table: only `GET` is served, on `api/counter`, `api/actor`,
/// `api/actor_log` and `api/{counter_log,counter_twice,counter_twice_log,counter}/<name>`.
pub open spec fn route_of(method: Seq<char>, segs: Seq<Seq<char>>) -> RouteView {
    if method != "GET"@ {
        RouteView::NotFound
    } else if segs.len() == 2 && segs[0] == "api"@ {
        if segs[1] == "counter"@ {
            RouteView::Increment { name: "default"@, twice: false, log: false }
        } else if segs[1] == "actor"@ {
            RouteView::Actor
        } else if segs[1] == "actor_log"@ {
            RouteView::ActorLog
        } else {
            RouteView::NotFound
        }
    } else if segs.len() == 3 && segs[0] == "api"@ {
        if segs[1] == "counter_log"@ {
            RouteView::Increment { name: segs[2], twice: false, log: true }
        } else if segs[1] == "counter_twice"@ {
            RouteView::Increment { name: segs[2], twice: true, log: false }
        } else if segs[1] == "counter_twice_log"@ {
            RouteView::Increment { name: segs[2], twice: true, log: true }
        } else if segs[1] == "counter"@ {
            RouteView::Increment { name: segs[2], twice: false, log: false }
        } else {
            RouteView::NotFound
        }
    } else {
        RouteView::NotFound
    }
}

/// Splits a request path into its segments: leading and trailing `/` are
/// trimmed, and what is left is split on every `/`. An empty path gives one
/// empty segment.
pub fn path_segments(path: &str) -> (r: Vec<String>)
    ensures
        r@.map_values(|s: String| s@) == segments_of(path@),
{
    let cs = chars_of(path);
    let n = cs.len();
    let mut lo: usize = 0;
    assert(cs@.subrange(0, n as int) =~= cs@);
    while lo < n && cs[lo] == '/'
        invariant
            cs@ == path@,
            n == cs@.len(),
            lo <= n,
            trim_slashes(cs@.subrange(lo as int, n as int)) == trim_slashes(path@),
        decreases n - lo,
    {
        assert(cs@.subrange(lo as int, n as int).drop_first() =~= cs@.subrange(
            lo + 1,
            n as int,
        ));
        lo = lo + 1;
    }
    let mut hi: usize = n;
    while hi > lo && cs[hi - 1] == '/'
        invariant
            cs@ == path@,
            n == cs@.len(),
            lo <= hi <= n,
            lo < n ==> cs@[lo as int] != '/',
            trim_slashes(cs@.subrange(lo as int, hi as int)) == trim_slashes(path@),
        decreases hi - lo,
    {
        assert(cs@.subrange(lo as int, hi as int).drop_last() =~= cs@.subrange(
            lo as int,
            hi - 1,
        ));
        hi = hi - 1;
    }
    let ghost t = cs@.subrange(lo as int, hi as int);
    assert(trim_slashes(t) == t);
    let mut done: Vec<String> = Vec::new();
    let mut cur: Vec<char> = Vec::new();
    let mut j: usize = lo;
    while j < hi
        invariant
            lo <= j <= hi <= n,
            n == cs@.len(),
            t == cs@.subrange(lo as int, hi as int),
            done@.map_values(|s: String| s@).push(cur@) == split_upto(t, (j - lo) as nat),
        decreases hi - j,
    {
        let c = cs[j];
        let ghost k = (j - lo) as nat;
        let ghost d = done@.map_values(|s: String| s@);
        assert(t[k as int] == c);
        if c == '/' {
            let piece = string_of(&cur);
            done.push(piece);
            cur = Vec::new();
            assert(done@.map_values(|s: String| s@) =~= d.push(piece@));
        } else {
            cur.push(c);
            assert(done@.map_values(|s: String| s@) =~= d);
        }
        j = j + 1;
        assert(done@.map_values(|s: String| s@).push(cur@) =~= split_upto(t, (j - lo) as nat));
    }
    let ghost d = done@.map_values(|s: String| s@);
    let last = string_of(&cur);
    done.push(last);
    assert(done@.map_values(|s: String| s@) =~= d.push(cur@));
    done
}

/// Classifies a request by its method and path into the operation it asks for.
pub fn route(method: &str, path: &str) -> (r: Route)
    ensures
        r@ == route_of(method@, segments_of(path@)),
{
    let segs = path_segments(path);
    let ghost sv = segs@.map_values(|s: String| s@);
    assert(segs@.len() == sv.len());
    if !is_word(method, "GET") {
        return Route::NotFound;
    }
    if segs.len() == 2 && is_word(segs[0].as_str(), "api") {
        assert(sv[0] == segs@[0]@ && sv[1] == segs@[1]@);
        if is_word(segs[1].as_str(), "counter") {
            Route::Increment { name: String::from_str("default"), twice: false, log: false }
        } else if is_word(segs[1].as_str(), "actor") {
            Route::Actor
        } else if is_word(segs[1].as_str(), "actor_log") {
            Route::ActorLog
        } else {
            Route::NotFound
        }
    } else if segs.len() == 3 && is_word(segs[0].as_str(), "api") {
        assert(sv[0] == segs@[0]@ && sv[1] == segs@[1]@ && sv[2] == segs@[2]@);
        let name = segs[2].clone();
        if is_word(segs[1].as_str(), "counter_log") {
            Route::Increment { name, twice: false, log: true }
        } else if is_word(segs[1].as_str(), "counter_twice") {
            Route::Increment { name, twice: true, log: false }
        } else if is_word(segs[1].as_str(), "counter_twice_log") {
            Route::Increment { name, twice: true, log: true }
        } else if is_word(segs[1].as_str(), "counter") {
            Route::Increment { name, twice: false, log: false }
        } else {
            Route::NotFound
        }
    } else {
        Route::NotFound
    }
}

} // verus!
