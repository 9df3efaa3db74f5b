use vstd::prelude::*;
use crate::body::{counter_body, counter_json, error_body, error_json};
use crate::key::{counter_key, key_of};
use crate::route::{route, route_of, segments_of, Route, RouteView};

verus! {

/// An HTTP response: a status code and a UTF-8 body.
pub struct Reply {
    pub status: u16,
    pub body: String,
}

/// What the host is asked to do next for a request.
pub enum Step {
    /// Add `delta` to `key` in the store, then hand the outcome to `Session::resume`.
    Increment { key: String, delta: i32 },
    /// Send this response; the request is done.
    Respond(Reply),
}

/// A step with its strings as characters and its integers unbounded.
pub ghost enum StepView {
    Increment { key: Seq<char>, delta: int },
    Respond { status: int, body: Seq<char> },
}

impl View for Step {
    type V = StepView;

    open spec fn view(&self) -> StepView {
        match self {
            Step::Increment { key, delta } => StepView::Increment { key: key@, delta: *delta as int },
            Step::Respond(reply) => StepView::Respond {
                status: reply.status as int,
                body: reply.body@,
            },
        }
    }
}

/// The outcome of a store increment: the new value, or the store's error message.
pub open spec fn outcome_view(o: Result<i32, String>) -> Result<int, Seq<char>> {
    match o {
        Ok(v) => Ok(v as int),
        Err(e) => Err(e@),
    }
}

/// How many store increments a route makes when all of them succeed.
pub open spec fn increments_of(r: RouteView) -> nat {
    match r {
        RouteView::Increment { twice, .. } => if twice {
            2
        } else {
            1
        },
        _ => 0,
    }
}

/// The key that a route increments.
pub open spec fn key_of_route(r: RouteView) -> Seq<char> {
    match r {
        RouteView::Increment { name, .. } => key_of(name),
        _ => Seq::empty(),
    }
}

/// The first step of a request on route `r`.
pub open spec fn first_step_of(r: RouteView) -> StepView {
    match r {
        RouteView::Actor => StepView::Respond { status: 200, body: counter_body(100) },
        RouteView::ActorLog => StepView::Respond { status: 200, body: counter_body(200) },
        RouteView::Increment { name, .. } => StepView::Increment { key: key_of(name), delta: 1 },
        RouteView::NotFound => StepView::Respond { status: 404, body: Seq::empty() },
    }
}

/// The step after the store answered increment number `issued` of route `r`:
/// another increment while some are left, else the 200 response with the new
/// value. Any failure ends the request with a 500 response carrying the
/// store's message, and no further increment is made.
pub open spec fn next_step_of(r: RouteView, issued: nat, outcome: Result<int, Seq<char>>) -> StepView {
    match outcome {
        Ok(v) => if issued < increments_of(r) {
            StepView::Increment { key: key_of_route(r), delta: 1 }
        } else {
            StepView::Respond { status: 200, body: counter_body(v) }
        },
        Err(e) => StepView::Respond { status: 500, body: error_body(e) },
    }
}

/// One request in flight: its route, how many increments were asked of the
/// store so far, and whether the outcome of the last one is still awaited.
pub struct Session {
    pub route: Route,
    pub issued: u8,
    pub pending: bool,
}

impl Session {
    /// The session waits for the outcome of its latest increment.
    pub open spec fn awaiting(&self) -> bool {
        &&& self.pending
        &&& 1 <= self.issued <= increments_of(self.route@)
    }

    /// Routes the request and gives its first step.
    pub fn start(method: &str, path: &str) -> (r: (Session, Step))
        ensures
            r.0.route@ == route_of(method@, segments_of(path@)),
            r.1@ == first_step_of(r.0.route@),
            r.0.pending == (r.1 is Increment),
            r.0.issued == (if r.0.pending {
                1int
            } else {
                0int
            }),
            r.0.pending ==> r.0.awaiting(),
    {
        let rt = route(method, path);
        let step = match &rt {
            Route::Actor => Step::Respond(Reply { status: 200, body: counter_json(100) }),
            Route::ActorLog => Step::Respond(Reply { status: 200, body: counter_json(200) }),
            Route::Increment { name, .. } => Step::Increment { key: counter_key(name.as_str()), delta: 1 },
            Route::NotFound => Step::Respond(Reply { status: 404, body: String::new() }),
        };
        let pending = match &step {
            Step::Increment { .. } => true,
            _ => false,
        };
        let issued: u8 = if pending {
            1
        } else {
            0
        };
        (Session { route: rt, issued, pending }, step)
    }

    /// Whether the route emits its four log lines before anything else.
    pub fn logs(&self) -> (r: bool)
        ensures
            r == (self.route@ is ActorLog || (self.route@ is Increment && self.route@->log)),
    {
        match &self.route {
            Route::ActorLog => true,
            Route::Increment { log, .. } => *log,
            _ => false,
        }
    }

    /// Takes the outcome of the increment that the last step asked for and
    /// gives the next step.
    pub fn resume(&mut self, outcome: Result<i32, String>) -> (s: Step)
        requires
            old(self).awaiting(),
        ensures
            final(self).route == old(self).route,
            s@ == next_step_of(old(self).route@, old(self).issued as nat, outcome_view(outcome)),
            final(self).pending == (s is Increment),
            final(self).issued == old(self).issued + (if s is Increment {
                1int
            } else {
                0int
            }),
            final(self).pending ==> final(self).awaiting(),
    {
        let total: u8 = match &self.route {
            Route::Increment { twice, .. } => if *twice {
                2
            } else {
                1
            },
            _ => 0,
        };
        let more = self.issued < total;
        let step = match outcome {
            Ok(v) => if more {
                match &self.route {
                    Route::Increment { name, .. } => Step::Increment {
                        key: counter_key(name.as_str()),
                        delta: 1,
                    },
                    _ => Step::Respond(Reply { status: 200, body: counter_json(v) }),
                }
            } else {
                Step::Respond(Reply { status: 200, body: counter_json(v) })
            },
            Err(e) => Step::Respond(Reply { status: 500, body: error_json(e.as_str()) }),
        };
        if more && matches!(step, Step::Increment { .. }) {
            self.issued = self.issued + 1;
        } else {
            self.pending = false;
        }
        step
    }
}

} // verus!
