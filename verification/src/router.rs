//! The router: three queues and the table of pending calls, with the two
//! decisions that correlate responses with callers.
use vstd::prelude::*;
use std::time::Duration;
use async_channel::{Receiver, Sender};
use crate::endpoint::Endpoint;
use crate::identifier::{fresh_identifier, is_random_layout, IDENTIFIER_SPACE};
use crate::pending::PendingCalls;
use crate::queue::{capacity_allowed, Queue};

verus! {

/// The capacity of each queue of a default router.
pub const DEFAULT_CAPACITY: usize = 100;

/// What became of one registration.
#[derive(Debug)]
#[verifier::reject_recursive_types(Response)]
pub enum Registration<Request, Response> {
    /// The call is pending under `identifier`, and the tagged request is to
    /// go onto the request queue.
    Dispatch { identifier: u128, request: Request },
    /// A call was already pending under the identifier offered. Nothing was
    /// recorded, and request and reply handle come back.
    Collision { request: Request, reply: Sender<Response> },
}

/// What became of one response.
#[derive(Debug)]
#[verifier::reject_recursive_types(Response)]
pub enum Delivery<Response> {
    /// The call was pending: `response` is to go into `reply`, the handle
    /// that was registered for it.
    Deliver { reply: Sender<Response>, response: Response },
    /// No call was pending under the response's identifier: `response` is to
    /// be dropped.
    Discard { response: Response },
}

/// What a registration under `candidate` comes to when `pending` are the
/// calls that wait.
pub open spec fn registration_outcome<Request, Response>(
    pending: Map<u128, Sender<Response>>,
    candidate: u128,
    request: Request,
    reply: Sender<Response>,
) -> Registration<Request, Response> {
    if pending.contains_key(candidate) {
        Registration::Collision { request, reply }
    } else {
        Registration::Dispatch { identifier: candidate, request }
    }
}

/// The calls that wait after a registration under `candidate`.
pub open spec fn pending_after_registration<Response>(
    pending: Map<u128, Sender<Response>>,
    candidate: u128,
    reply: Sender<Response>,
) -> Map<u128, Sender<Response>> {
    if pending.contains_key(candidate) {
        pending
    } else {
        pending.insert(candidate, reply)
    }
}

/// What a response tagged `identifier` comes to when `pending` are the calls
/// that wait.
pub open spec fn delivery_outcome<Response>(
    pending: Map<u128, Sender<Response>>,
    identifier: u128,
    response: Response,
) -> Delivery<Response> {
    if pending.contains_key(identifier) {
        Delivery::Deliver { reply: pending[identifier], response }
    } else {
        Delivery::Discard { response }
    }
}

/// The calls that wait after a response tagged `identifier`.
pub open spec fn pending_after_response<Response>(
    pending: Map<u128, Sender<Response>>,
    identifier: u128,
) -> Map<u128, Sender<Response>> {
    pending.remove(identifier)
}

/// Routes requests from callers to workers and each response back to the
/// caller that waits for it.
#[derive(Debug)]
#[verifier::reject_recursive_types(Request)]
#[verifier::reject_recursive_types(Response)]
pub struct Router<Request, Response> {
    registration: Queue<(Request, Sender<Response>)>,
    requests: Queue<(u128, Request)>,
    responses: Queue<(u128, Response)>,
    pending: PendingCalls<Sender<Response>>,
}

impl<Request, Response> Router<Request, Response> {
    /// The table of pending calls is in order.
    pub closed spec fn wf(&self) -> bool {
        self.pending.wf()
    }

    /// The calls that wait for a response: identifier to reply handle.
    pub closed spec fn pending(&self) -> Map<u128, Sender<Response>> {
        self.pending@
    }

    /// The queue on which callers announce their requests.
    pub closed spec fn registration_queue(&self) -> Queue<(Request, Sender<Response>)> {
        self.registration
    }

    /// The queue that carries tagged requests to the workers.
    pub closed spec fn request_queue(&self) -> Queue<(u128, Request)> {
        self.requests
    }

    /// The queue that carries tagged responses back from the workers.
    pub closed spec fn response_queue(&self) -> Queue<(u128, Response)> {
        self.responses
    }

    /// `self` has the queues of `other`.
    pub open spec fn same_queues(&self, other: &Self) -> bool {
        &&& self.registration_queue() == other.registration_queue()
        &&& self.request_queue() == other.request_queue()
        &&& self.response_queue() == other.response_queue()
    }

    /// The capacities of the registration, request and response queues, in
    /// that order.
    pub open spec fn capacities(&self) -> (Option<usize>, Option<usize>, Option<usize>) {
        (
            self.registration_queue().capacity(),
            self.request_queue().capacity(),
            self.response_queue().capacity(),
        )
    }

    /// A router with no pending call, whose queues have the capacities given:
    /// `None` for an unbounded queue, `Some(n)` for one that holds `n`
    /// messages.
    pub fn bounded(
        registration_channel_size: Option<usize>,
        request_channel_size: Option<usize>,
        response_channel_size: Option<usize>,
    ) -> (router: Self)
        requires
            capacity_allowed(registration_channel_size),
            capacity_allowed(request_channel_size),
            capacity_allowed(response_channel_size),
        ensures
            router.wf(),
            router.pending() == (Map::<u128, Sender<Response>>::empty()),
            router.capacities() == (
                registration_channel_size,
                request_channel_size,
                response_channel_size,
            ),
    {
        Router {
            registration: Queue::with_capacity(registration_channel_size),
            requests: Queue::with_capacity(request_channel_size),
            responses: Queue::with_capacity(response_channel_size),
            pending: PendingCalls::new(),
        }
    }

    /// An endpoint that submits to this router's registration queue and waits
    /// for `timeout`, or without limit for `None`.
    pub fn endpoint(&self, timeout: Option<Duration>) -> (endpoint: Endpoint<Request, Response>)
        ensures
            endpoint.registration_sender() == self.registration_queue().sender(),
            endpoint.timeout() == timeout,
    {
        Endpoint::new(self.registration.sender(), timeout)
    }

    /// The capacities of the registration, request and response queues, in
    /// that order.
    pub fn queue_capacities(&self) -> (capacities: (Option<usize>, Option<usize>, Option<usize>))
        ensures
            capacities == self.capacities(),
    {
        (self.registration.capacity(), self.requests.capacity(), self.responses.capacity())
    }

    /// The end of the registration queue from which registrations are taken.
    pub fn registration_receiver(&self) -> (end: Receiver<(Request, Sender<Response>)>)
        ensures
            end == self.registration_queue().receiver(),
    {
        self.registration.receiver()
    }

    /// The end of the request queue onto which tagged requests are put.
    pub fn request_sender(&self) -> (end: Sender<(u128, Request)>)
        ensures
            end == self.request_queue().sender(),
    {
        self.requests.sender()
    }

    /// The end of the request queue from which a worker takes tagged
    /// requests.
    pub fn request_receiver(&self) -> (end: Receiver<(u128, Request)>)
        ensures
            end == self.request_queue().receiver(),
    {
        self.requests.receiver()
    }

    /// The end of the response queue onto which a worker puts tagged
    /// responses.
    pub fn response_sender(&self) -> (end: Sender<(u128, Response)>)
        ensures
            end == self.response_queue().sender(),
    {
        self.responses.sender()
    }

    /// The end of the response queue from which tagged responses are taken.
    pub fn response_receiver(&self) -> (end: Receiver<(u128, Response)>)
        ensures
            end == self.response_queue().receiver(),
    {
        self.responses.receiver()
    }

    /// Registers a call under `candidate`: if no call is pending under it,
    /// `reply` now waits there and the request is to be dispatched under it;
    /// otherwise nothing changes and the registration comes back.
    pub fn register_with(
        &mut self,
        candidate: u128,
        request: Request,
        reply: Sender<Response>,
    ) -> (outcome: Registration<Request, Response>)
        requires
            old(self).wf(),
        ensures
            final(self).wf(),
            final(self).same_queues(old(self)),
            outcome == registration_outcome(old(self).pending(), candidate, request, reply),
            final(self).pending() == pending_after_registration(
                old(self).pending(),
                candidate,
                reply,
            ),
    {
        match self.pending.insert(candidate, reply) {
            Ok(()) => Registration::Dispatch { identifier: candidate, request },
            Err(reply) => Registration::Collision { request, reply },
        }
    }

    /// Registers a call under a fresh random identifier, drawing another
    /// whenever a call is already pending under the one drawn. It gives up
    /// with `Collision` only when as many identifiers have collided as there
    /// are random identifiers at all. Either way the router is left as by
    /// `register_with` on the identifier drawn last.
    pub fn register(
        &mut self,
        request: Request,
        reply: Sender<Response>,
    ) -> (outcome: Registration<Request, Response>)
        requires
            old(self).wf(),
        ensures
            final(self).wf(),
            final(self).same_queues(old(self)),
            exists|drawn: u128|
                is_random_layout(drawn) && outcome == #[trigger] registration_outcome(
                    old(self).pending(),
                    drawn,
                    request,
                    reply,
                ) && final(self).pending() == pending_after_registration(
                    old(self).pending(),
                    drawn,
                    reply,
                ),
    {
        let mut carried_request = request;
        let mut carried_reply = reply;
        let mut attempts: u128 = 0;
        while attempts < IDENTIFIER_SPACE
            invariant
                self.wf(),
                self.same_queues(old(self)),
                self.pending() == old(self).pending(),
                carried_request == request,
                carried_reply == reply,
                attempts <= IDENTIFIER_SPACE,
                attempts > 0 ==> exists|drawn: u128|
                    is_random_layout(drawn) && #[trigger] registration_outcome(
                        old(self).pending(),
                        drawn,
                        request,
                        reply,
                    ) == (Registration::Collision { request, reply }),
            decreases IDENTIFIER_SPACE - attempts,
        {
            let candidate = fresh_identifier();
            match self.register_with(candidate, carried_request, carried_reply) {
                Registration::Dispatch { identifier, request: dispatched } => {
                    return Registration::Dispatch { identifier, request: dispatched };
                },
                Registration::Collision { request: returned, reply: handle } => {
                    assert(registration_outcome(old(self).pending(), candidate, request, reply) == (
                    Registration::Collision { request, reply }));
                    carried_request = returned;
                    carried_reply = handle;
                },
            }
            attempts = attempts + 1;
        }
        Registration::Collision { request: carried_request, reply: carried_reply }
    }

    /// Routes a response tagged `identifier`: if a call is pending under it,
    /// the call leaves the table and the response is to be delivered into its
    /// reply handle; otherwise the response is to be discarded.
    pub fn route(&mut self, identifier: u128, response: Response) -> (outcome: Delivery<Response>)
        requires
            old(self).wf(),
        ensures
            final(self).wf(),
            final(self).same_queues(old(self)),
            outcome == delivery_outcome(old(self).pending(), identifier, response),
            final(self).pending() == pending_after_response(old(self).pending(), identifier),
    {
        match self.pending.remove_and_take(identifier) {
            Some(reply) => Delivery::Deliver { reply, response },
            None => Delivery::Discard { response },
        }
    }
}

impl<Request, Response> Default for Router<Request, Response> {
    /// A router whose three queues each hold `DEFAULT_CAPACITY` messages.
    fn default() -> (router: Self)
        ensures
            router.wf(),
            router.pending() == (Map::<u128, Sender<Response>>::empty()),
            router.capacities() == (
                Some(DEFAULT_CAPACITY),
                Some(DEFAULT_CAPACITY),
                Some(DEFAULT_CAPACITY),
            ),
    {
        Router::bounded(Some(DEFAULT_CAPACITY), Some(DEFAULT_CAPACITY), Some(DEFAULT_CAPACITY))
    }
}

} // verus!
