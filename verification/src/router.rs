//! The relay between the transport and the application, and the loop that
//! hands events to the application's handler.
//!
//! The relay only classifies. A response goes back to the transport, whose
//! table finds the caller that waits for it; an event or a request of the
//! adapter goes to the application's queue. Each queue receives its payloads
//! in the order in which they arrived.

use crate::protocol::{Events, Payload};
use vstd::prelude::*;

verus! {

/// Where a payload goes.
#[derive(Copy, Clone, Debug, PartialEq, Eq, Structural)]
pub enum Route {
    /// To the queue that the application drains.
    Application,
    /// Back to the transport, for its table of pending requests.
    Transport,
}

/// What the relay made of a run of arrivals.
#[derive(Debug)]
pub struct Relayed {
    pub application: Vec<Payload>,
    pub transport: Vec<Payload>,
}

/// What the event loop made of a run of payloads from the application's
/// queue.
#[derive(Debug)]
pub struct Delivery {
    /// The events to hand to the handler, in this order.
    pub events: Vec<Events>,
    /// The payload at which the loop has to fail, where there is one.
    pub stray: Option<Payload>,
}

/// The queue that a payload belongs to.
pub open spec fn route_of(payload: Payload) -> Route {
    match payload {
        Payload::Response(_) => Route::Transport,
        Payload::Event(_) | Payload::Request(_) => Route::Application,
    }
}

/// The payloads among `arrivals` that go to `route`, in arrival order.
pub open spec fn routed(arrivals: Seq<Payload>, route: Route) -> Seq<Payload> {
    arrivals.filter(|p: Payload| route_of(p) == route)
}

/// The event inside a payload that is one.
pub open spec fn event_in(payload: Payload) -> Events
    recommends
        payload is Event,
{
    payload->Event_0
}

/// How many payloads at the head of `queue` are events.
pub open spec fn leading_events(queue: Seq<Payload>) -> nat
    decreases queue.len(),
{
    if queue.len() == 0 || !(queue[0] is Event) {
        0
    } else {
        1 + leading_events(queue.drop_first())
    }
}

/// The events that reach the handler from `queue`: those before the first
/// payload that is no event, in the queue's order.
pub open spec fn delivered(queue: Seq<Payload>) -> Seq<Events> {
    Seq::new(leading_events(queue), |i: int| event_in(queue[i]))
}

/// The payload at which the event loop fails, where there is one.
pub open spec fn first_stray(queue: Seq<Payload>) -> Option<Payload> {
    if leading_events(queue) < queue.len() {
        Some(queue[leading_events(queue) as int])
    } else {
        None
    }
}

/// The queue that `payload` belongs to.
pub fn route(payload: &Payload) -> (route: Route)
    ensures
        route == route_of(*payload),
{
    match payload {
        Payload::Response(_) => Route::Transport,
        Payload::Event(_) | Payload::Request(_) => Route::Application,
    }
}

proof fn lemma_routed_push(arrivals: Seq<Payload>, payload: Payload, route: Route)
    ensures
        routed(arrivals.push(payload), route) == if route_of(payload) == route {
            routed(arrivals, route).push(payload)
        } else {
            routed(arrivals, route)
        },
{
    reveal(Seq::filter);
    assert(arrivals.push(payload).drop_last() =~= arrivals);
}

/// Sorts a run of arrivals into the two queues. Neither queue loses,
/// gains or reorders a payload.
pub fn relay(arrivals: Vec<Payload>) -> (relayed: Relayed)
    ensures
        relayed.application@ == routed(arrivals@, Route::Application),
        relayed.transport@ == routed(arrivals@, Route::Transport),
{
    let mut application: Vec<Payload> = Vec::new();
    let mut transport: Vec<Payload> = Vec::new();
    let ghost all = arrivals@;
    proof {
        reveal(Seq::filter);
    }
    for payload in it: arrivals
        invariant
            it.seq() == all,
            application@ == routed(all.take(it.index() as int), Route::Application),
            transport@ == routed(all.take(it.index() as int), Route::Transport),
    {
        proof {
            let seen = all.take(it.index() as int);
            assert(all.take(it.index() + 1) =~= seen.push(payload));
            lemma_routed_push(seen, payload, Route::Application);
            lemma_routed_push(seen, payload, Route::Transport);
        }
        match route(&payload) {
            Route::Application => application.push(payload),
            Route::Transport => transport.push(payload),
        }
    }
    proof {
        assert(all.take(all.len() as int) =~= all);
    }
    Relayed { application, transport }
}

/// The event in a payload from the application's queue. Any other payload
/// comes back as the error: the event loop has no handler for it and has to
/// fail on it, never drop it.
pub fn event_of(payload: Payload) -> (event: Result<Events, Payload>)
    ensures
        payload is Event ==> event == Ok::<Events, Payload>(event_in(payload)),
        !(payload is Event) ==> event == Err::<Events, Payload>(payload),
{
    match payload {
        Payload::Event(event) => Ok(event),
        Payload::Request(request) => Err(Payload::Request(request)),
        Payload::Response(response) => Err(Payload::Response(response)),
    }
}

proof fn lemma_leading_events_at(queue: Seq<Payload>, k: int)
    requires
        0 <= k <= queue.len(),
        forall|i: int| 0 <= i < k ==> (#[trigger] queue[i]) is Event,
        k < queue.len() ==> !(queue[k] is Event),
    ensures
        leading_events(queue) == k,
    decreases queue.len(),
{
    if k > 0 {
        let rest = queue.drop_first();
        assert(queue[0] is Event);
        assert forall|i: int| 0 <= i < k - 1 implies (#[trigger] rest[i]) is Event by {
            assert(rest[i] == queue[i + 1]);
        }
        lemma_leading_events_at(rest, k - 1);
    }
}

/// Drains a run of payloads from the application's queue: the events up to
/// the first payload that is no event, in the queue's order, and that
/// payload. Nothing behind it is delivered.
pub fn deliver(queue: Vec<Payload>) -> (delivery: Delivery)
    ensures
        delivery.events@ == delivered(queue@),
        delivery.stray == first_stray(queue@),
{
    let mut events: Vec<Events> = Vec::new();
    let mut stray: Option<Payload> = None;
    let ghost all = queue@;
    for payload in it: queue
        invariant
            it.seq() == all,
            stray is None ==> events@.len() == it.index(),
            stray is None ==> forall|i: int|
                0 <= i < it.index() ==> (#[trigger] all[i]) is Event && events@[i] == event_in(
                    all[i],
                ),
            stray matches Some(p) ==> {
                &&& events@.len() < it.index()
                &&& p == all[events@.len() as int]
                &&& !(p is Event)
                &&& forall|i: int|
                    0 <= i < events@.len() ==> (#[trigger] all[i]) is Event && events@[i]
                        == event_in(all[i])
            },
    {
        if stray.is_none() {
            match event_of(payload) {
                Ok(event) => events.push(event),
                Err(other) => {
                    stray = Some(other);
                },
            }
        }
    }
    proof {
        lemma_leading_events_at(all, events@.len() as int);
        assert(events@ =~= delivered(all));
    }
    Delivery { events, stray }
}

/// How many payloads at the head of `arrivals` are no request of the
/// adapter.
pub open spec fn before_first_request(arrivals: Seq<Payload>) -> nat
    decreases arrivals.len(),
{
    if arrivals.len() == 0 || arrivals[0] is Request {
        0
    } else {
        1 + before_first_request(arrivals.drop_first())
    }
}

/// The events among `arrivals`, in arrival order.
pub open spec fn events_among(arrivals: Seq<Payload>) -> Seq<Events> {
    arrivals.filter(|p: Payload| p is Event).map_values(|p: Payload| event_in(p))
}

proof fn lemma_before_first_request(arrivals: Seq<Payload>)
    ensures
        before_first_request(arrivals) <= arrivals.len(),
        forall|i: int|
            0 <= i < before_first_request(arrivals) ==> !((#[trigger] arrivals[i]) is Request),
        before_first_request(arrivals) < arrivals.len() ==> arrivals[before_first_request(
            arrivals,
        ) as int] is Request,
    decreases arrivals.len(),
{
    if arrivals.len() > 0 && !(arrivals[0] is Request) {
        let rest = arrivals.drop_first();
        lemma_before_first_request(rest);
        assert forall|i: int| 0 <= i < before_first_request(arrivals) implies !((
        #[trigger] arrivals[i]) is Request) by {
            if i > 0 {
                assert(arrivals[i] == rest[i - 1]);
            }
        }
        if before_first_request(arrivals) < arrivals.len() {
            assert(arrivals[before_first_request(arrivals) as int] == rest[before_first_request(
                rest,
            ) as int]);
        }
    }
}

proof fn lemma_same_filter(arrivals: Seq<Payload>)
    requires
        forall|i: int| 0 <= i < arrivals.len() ==> !((#[trigger] arrivals[i]) is Request),
    ensures
        routed(arrivals, Route::Application) == arrivals.filter(|p: Payload| p is Event),
    decreases arrivals.len(),
{
    reveal(Seq::filter);
    if arrivals.len() > 0 {
        lemma_same_filter(arrivals.drop_last());
    }
}

proof fn lemma_routed_head(arrivals: Seq<Payload>)
    requires
        arrivals.len() > 0,
        arrivals[0] is Request,
    ensures
        routed(arrivals, Route::Application).len() > 0,
        routed(arrivals, Route::Application)[0] == arrivals[0],
{
    let head = seq![arrivals[0]];
    let rest = arrivals.drop_first();
    let to_application = |p: Payload| route_of(p) == Route::Application;
    assert(arrivals =~= head + rest);
    Seq::filter_distributes_over_add(head, rest, to_application);
    reveal_with_fuel(Seq::filter, 2);
    assert(head.drop_last() =~= Seq::<Payload>::empty());
    assert(head.filter(to_application) =~= head);
}

/// The order of arrival is the order of delivery. Of any run of arrivals,
/// the handler receives the events that arrived before the first request of
/// the adapter, each once and in the order in which they arrived; the loop
/// fails on that request, where there is one, and on nothing else.
pub proof fn events_are_delivered_in_arrival_order(arrivals: Seq<Payload>)
    ensures
        before_first_request(arrivals) <= arrivals.len(),
        delivered(routed(arrivals, Route::Application)) == events_among(
            arrivals.take(before_first_request(arrivals) as int),
        ),
        first_stray(routed(arrivals, Route::Application)) == if before_first_request(arrivals)
            < arrivals.len() {
            Some(arrivals[before_first_request(arrivals) as int])
        } else {
            None
        },
{
    lemma_before_first_request(arrivals);
    let n = before_first_request(arrivals) as int;
    let head = arrivals.take(n);
    let tail = arrivals.skip(n);
    let is_event = |p: Payload| p is Event;
    let to_application = |p: Payload| route_of(p) == Route::Application;
    let queue = routed(arrivals, Route::Application);
    assert(arrivals =~= head + tail);
    Seq::filter_distributes_over_add(head, tail, to_application);
    assert(queue == routed(head, Route::Application) + routed(tail, Route::Application));
    lemma_same_filter(head);
    let events = head.filter(is_event);
    assert forall|i: int| 0 <= i < events.len() implies (#[trigger] queue[i]) is Event by {
        head.lemma_filter_pred(is_event, i);
        assert(is_event(events[i]));
    }
    if n < arrivals.len() {
        assert(tail[0] == arrivals[n]);
        lemma_routed_head(tail);
        assert(queue[events.len() as int] == arrivals[n]);
    } else {
        assert(tail =~= Seq::<Payload>::empty());
        reveal(Seq::filter);
        assert(routed(tail, Route::Application) =~= Seq::<Payload>::empty());
    }
    lemma_leading_events_at(queue, events.len() as int);
    assert(delivered(queue) =~= events_among(head));
}

/// Where no request of the adapter arrives, nothing is lost: the handler
/// receives every event of the run, in the order of arrival, and the loop
/// does not fail.
pub proof fn every_event_is_delivered(arrivals: Seq<Payload>)
    requires
        forall|i: int| 0 <= i < arrivals.len() ==> !((#[trigger] arrivals[i]) is Request),
    ensures
        delivered(routed(arrivals, Route::Application)) == events_among(arrivals),
        first_stray(routed(arrivals, Route::Application)) is None,
{
    lemma_before_first_request(arrivals);
    events_are_delivered_in_arrival_order(arrivals);
    assert(arrivals.take(arrivals.len() as int) =~= arrivals);
}

/// Relaying piece by piece is relaying the whole: each queue of two runs of
/// arrivals, one after the other, is the queue of the first followed by the
/// queue of the second.
pub proof fn relay_keeps_arrival_order(first: Seq<Payload>, second: Seq<Payload>, route: Route)
    ensures
        routed(first + second, route) == routed(first, route) + routed(second, route),
{
    Seq::filter_distributes_over_add(first, second, |p: Payload| route_of(p) == route);
}

} // verus!
