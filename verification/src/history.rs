//! What holds of every history of a router: of any sequence of registrations
//! and responses, whatever their order.
use vstd::prelude::*;
use async_channel::Sender;
use crate::endpoint::{Endpoint, EndpointError};
use crate::router::{
    delivery_outcome, pending_after_registration, pending_after_response, registration_outcome,
    Delivery, Registration,
};

verus! {

/// One thing that happens to a router.
#[verifier::reject_recursive_types(Response)]
pub enum Event<Request, Response> {
    /// A caller's registration is offered under `candidate`.
    Register { candidate: u128, request: Request, reply: Sender<Response> },
    /// A worker's response arrives, tagged `identifier`.
    Respond { identifier: u128, response: Response },
}

/// The calls that wait after `event`.
pub open spec fn pending_after<Request, Response>(
    pending: Map<u128, Sender<Response>>,
    event: Event<Request, Response>,
) -> Map<u128, Sender<Response>> {
    match event {
        Event::Register { candidate, request, reply } => pending_after_registration(
            pending,
            candidate,
            reply,
        ),
        Event::Respond { identifier, response } => pending_after_response(pending, identifier),
    }
}

/// The calls that wait after all of `events`, in their order.
pub open spec fn pending_after_all<Request, Response>(
    pending: Map<u128, Sender<Response>>,
    events: Seq<Event<Request, Response>>,
) -> Map<u128, Sender<Response>>
    decreases events.len(),
{
    if events.len() == 0 {
        pending
    } else {
        pending_after(pending_after_all(pending, events.drop_last()), events.last())
    }
}

/// The calls that wait just before the event at position `at`.
pub open spec fn pending_before<Request, Response>(
    pending: Map<u128, Sender<Response>>,
    events: Seq<Event<Request, Response>>,
    at: int,
) -> Map<u128, Sender<Response>> {
    pending_after_all(pending, events.take(at))
}

/// `event` is a registration that is accepted under `identifier`.
pub open spec fn dispatches<Request, Response>(
    pending: Map<u128, Sender<Response>>,
    event: Event<Request, Response>,
    identifier: u128,
) -> bool {
    match event {
        Event::Register { candidate, request, reply } => registration_outcome(
            pending,
            candidate,
            request,
            reply,
        ) == (Registration::<Request, Response>::Dispatch { identifier, request }),
        Event::Respond { .. } => false,
    }
}

/// `event` is a response tagged `identifier` that is delivered.
pub open spec fn delivers<Request, Response>(
    pending: Map<u128, Sender<Response>>,
    event: Event<Request, Response>,
    identifier: u128,
) -> bool {
    match event {
        Event::Register { .. } => false,
        Event::Respond { identifier: tagged, response } => {
            tagged == identifier && delivery_outcome(pending, tagged, response) is Deliver
        },
    }
}

/// `event` is a response tagged `identifier`, delivered or not.
pub open spec fn answers<Request, Response>(
    event: Event<Request, Response>,
    identifier: u128,
) -> bool {
    match event {
        Event::Register { .. } => false,
        Event::Respond { identifier: tagged, .. } => tagged == identifier,
    }
}

proof fn lemma_one_more_event<Request, Response>(
    pending: Map<u128, Sender<Response>>,
    events: Seq<Event<Request, Response>>,
    at: int,
)
    requires
        0 <= at < events.len(),
    ensures
        pending_before(pending, events, at + 1) == pending_after(
            pending_before(pending, events, at),
            events[at],
        ),
{
    assert(events.take(at + 1).drop_last() =~= events.take(at));
}

proof fn lemma_stays_pending<Request, Response>(
    pending: Map<u128, Sender<Response>>,
    events: Seq<Event<Request, Response>>,
    from: int,
    to: int,
    identifier: u128,
)
    requires
        0 <= from <= to <= events.len(),
        pending_before(pending, events, from).contains_key(identifier),
        forall|at: int|
            from <= at < to ==> !delivers(
                #[trigger] pending_before(pending, events, at),
                events[at],
                identifier,
            ),
    ensures
        pending_before(pending, events, to).contains_key(identifier),
        pending_before(pending, events, to)[identifier] == pending_before(
            pending,
            events,
            from,
        )[identifier],
    decreases to - from,
{
    if from < to {
        lemma_stays_pending(pending, events, from, to - 1, identifier);
        lemma_one_more_event(pending, events, to - 1);
        assert(!delivers(pending_before(pending, events, to - 1), events[to - 1], identifier));
    }
}

proof fn lemma_stays_absent<Request, Response>(
    pending: Map<u128, Sender<Response>>,
    events: Seq<Event<Request, Response>>,
    from: int,
    to: int,
    identifier: u128,
)
    requires
        0 <= from <= to <= events.len(),
        !pending_before(pending, events, from).contains_key(identifier),
        forall|at: int|
            from <= at < to ==> !dispatches(
                #[trigger] pending_before(pending, events, at),
                events[at],
                identifier,
            ),
    ensures
        !pending_before(pending, events, to).contains_key(identifier),
    decreases to - from,
{
    if from < to {
        lemma_stays_absent(pending, events, from, to - 1, identifier);
        lemma_one_more_event(pending, events, to - 1);
        assert(!dispatches(pending_before(pending, events, to - 1), events[to - 1], identifier));
    }
}

/// Identifiers are unique among the calls that wait at the same time: when
/// two registrations of one history are accepted under the same identifier,
/// a response under that identifier was delivered between them, so the first
/// call had left the table before the second entered it.
pub proof fn law_identifiers_are_unique<Request, Response>(
    pending: Map<u128, Sender<Response>>,
    events: Seq<Event<Request, Response>>,
    first: int,
    second: int,
    identifier: u128,
)
    requires
        0 <= first < second < events.len(),
        dispatches(pending_before(pending, events, first), events[first], identifier),
        dispatches(pending_before(pending, events, second), events[second], identifier),
    ensures
        exists|between: int|
            first < between < second && delivers(
                #[trigger] pending_before(pending, events, between),
                events[between],
                identifier,
            ),
{
    if !exists|between: int|
        first < between < second && delivers(
            #[trigger] pending_before(pending, events, between),
            events[between],
            identifier,
        ) {
        lemma_one_more_event(pending, events, first);
        lemma_stays_pending(pending, events, first + 1, second, identifier);
    }
}

/// A call is answered at most once: when two responses of one history are
/// delivered under the same identifier, a registration was accepted under
/// that identifier between them, so the second response went to another call.
pub proof fn law_delivery_is_at_most_once<Request, Response>(
    pending: Map<u128, Sender<Response>>,
    events: Seq<Event<Request, Response>>,
    first: int,
    second: int,
    identifier: u128,
)
    requires
        0 <= first < second < events.len(),
        delivers(pending_before(pending, events, first), events[first], identifier),
        delivers(pending_before(pending, events, second), events[second], identifier),
    ensures
        exists|between: int|
            first < between < second && dispatches(
                #[trigger] pending_before(pending, events, between),
                events[between],
                identifier,
            ),
{
    if !exists|between: int|
        first < between < second && dispatches(
            #[trigger] pending_before(pending, events, between),
            events[between],
            identifier,
        ) {
        lemma_one_more_event(pending, events, first);
        lemma_stays_absent(pending, events, first + 1, second, identifier);
    }
}

/// A second response under an identifier, with no registration in between,
/// is discarded and changes nothing.
pub proof fn law_repeated_response_is_ignored<Response>(
    pending: Map<u128, Sender<Response>>,
    identifier: u128,
    second: Response,
)
    ensures
        delivery_outcome(pending_after_response(pending, identifier), identifier, second) == (
        Delivery::Discard { response: second }),
        pending_after_response(pending_after_response(pending, identifier), identifier)
            == pending_after_response(pending, identifier),
{
    assert(pending.remove(identifier).remove(identifier) =~= pending.remove(identifier));
}

/// A response concerns the call under its own identifier and no other,
/// whether or not the caller of that call still listens: if it is delivered,
/// then into the reply handle registered under its identifier, and every
/// other call waits on as before and will be answered as if this response had
/// never come.
pub proof fn law_response_reaches_no_other_call<Response>(
    pending: Map<u128, Sender<Response>>,
    identifier: u128,
    response: Response,
    other: u128,
    later: Response,
)
    requires
        other != identifier,
    ensures
        delivery_outcome(pending, identifier, response) matches Delivery::Deliver {
            reply,
            response: carried,
        } ==> reply == pending[identifier] && carried == response,
        pending_after_response(pending, identifier).contains_key(other) == pending.contains_key(
            other,
        ),
        pending.contains_key(other) ==> pending_after_response(pending, identifier)[other]
            == pending[other],
        delivery_outcome(pending_after_response(pending, identifier), other, later)
            == delivery_outcome(pending, other, later),
{
}

/// A response finds the caller whose request it answers: when a registration
/// is accepted under an identifier, and the next response under that
/// identifier carries `worker(request)`, then exactly that value is
/// delivered into the reply handle of that registration, and the caller's
/// call ends with it, whatever else was registered and answered in between.
pub proof fn law_round_trip<Request, Response>(
    pending: Map<u128, Sender<Response>>,
    events: Seq<Event<Request, Response>>,
    registered: int,
    answered: int,
    identifier: u128,
    worker: spec_fn(Request) -> Response,
)
    requires
        0 <= registered < answered < events.len(),
        dispatches(pending_before(pending, events, registered), events[registered], identifier),
        forall|between: int|
            registered < between < answered ==> !answers(#[trigger] events[between], identifier),
        events[answered] == (Event::<Request, Response>::Respond {
            identifier,
            response: worker(events[registered]->request),
        }),
    ensures
        delivery_outcome(
            pending_before(pending, events, answered),
            identifier,
            worker(events[registered]->request),
        ) == (Delivery::Deliver {
            reply: events[registered]->reply,
            response: worker(events[registered]->request),
        }),
        Endpoint::<Request, Response>::outcome_of_reply(Ok(worker(events[registered]->request)))
            == (Ok::<Response, EndpointError>(worker(events[registered]->request))),
{
    lemma_one_more_event(pending, events, registered);
    assert forall|at: int| registered + 1 <= at < answered implies !delivers(
        #[trigger] pending_before(pending, events, at),
        events[at],
        identifier,
    ) by {
        assert(!answers(events[at], identifier));
    }
    lemma_stays_pending(pending, events, registered + 1, answered, identifier);
}

/// Every delivery answers a registration: in a history that starts with no
/// pending call, a response that is delivered under an identifier follows a
/// registration accepted under that identifier, with no other response under
/// it in between.
pub proof fn law_delivery_follows_registration<Request, Response>(
    events: Seq<Event<Request, Response>>,
    answered: int,
    identifier: u128,
)
    requires
        0 <= answered < events.len(),
        delivers(pending_before(Map::empty(), events, answered), events[answered], identifier),
    ensures
        exists|registered: int|
            0 <= registered < answered && dispatches(
                #[trigger] pending_before(Map::empty(), events, registered),
                events[registered],
                identifier,
            ) && forall|between: int|
                registered < between < answered ==> !answers(
                    #[trigger] events[between],
                    identifier,
                ),
{
    lemma_origin_of_pending(events, answered, identifier);
}

proof fn lemma_origin_of_pending<Request, Response>(
    events: Seq<Event<Request, Response>>,
    to: int,
    identifier: u128,
)
    requires
        0 <= to <= events.len(),
        pending_before(Map::empty(), events, to).contains_key(identifier),
    ensures
        exists|registered: int|
            0 <= registered < to && dispatches(
                #[trigger] pending_before(Map::empty(), events, registered),
                events[registered],
                identifier,
            ) && forall|between: int|
                registered < between < to ==> !answers(#[trigger] events[between], identifier),
    decreases to,
{
    let start = Map::<u128, Sender<Response>>::empty();
    if to == 0 {
        assert(events.take(0) =~= Seq::empty());
    } else {
        lemma_one_more_event(start, events, to - 1);
        if dispatches(pending_before(start, events, to - 1), events[to - 1], identifier) {
            let registered = to - 1;
            assert(dispatches(
                pending_before(start, events, registered),
                events[registered],
                identifier,
            ));
        } else {
            assert(pending_before(start, events, to - 1).contains_key(identifier));
            assert(!answers(events[to - 1], identifier));
            lemma_origin_of_pending(events, to - 1, identifier);
            let registered = choose|registered: int|
                0 <= registered < to - 1 && dispatches(
                    #[trigger] pending_before(start, events, registered),
                    events[registered],
                    identifier,
                ) && forall|between: int|
                    registered < between < to - 1 ==> !answers(
                        #[trigger] events[between],
                        identifier,
                    );
            assert(dispatches(
                pending_before(start, events, registered),
                events[registered],
                identifier,
            ));
            assert forall|between: int| registered < between < to implies !answers(
                #[trigger] events[between],
                identifier,
            ) by {}
        }
    }
}

} // verus!
