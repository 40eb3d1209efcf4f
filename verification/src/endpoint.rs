//! The caller's side of one call: what to submit, how long to wait, and what
//! the call comes to once the wait is over.
use vstd::prelude::*;
use vstd::std_specs::convert::FromSpecImpl;
use std::time::Duration;
use async_channel::{Receiver, RecvError, SendError, Sender};
use tokio::time::error::Elapsed;

verus! {

/// What a receive returns when the channel is closed and empty.
#[verifier::external_type_specification]
#[verifier::external_body]
pub struct ExRecvError(RecvError);

/// What a send returns when the channel is closed: the message, unsent.
#[verifier::external_type_specification]
#[verifier::external_body]
#[verifier::reject_recursive_types(T)]
pub struct ExSendError<T>(SendError<T>);

/// What a timed wait returns when the timer ran out first.
#[verifier::external_type_specification]
#[verifier::external_body]
pub struct ExElapsed(Elapsed);

/// How many replies a call's private reply channel can hold. One reply is
/// ever sent, so the router's send finds room even before the caller waits.
pub const REPLY_CAPACITY: usize = 100;

/// Why a call ended without a response.
#[derive(Debug, PartialEq, Eq)]
pub enum EndpointError {
    /// The registration queue did not accept the request.
    RequestSend,
    /// The reply channel was closed before a response arrived.
    ResponseReceive(RecvError),
    /// No response arrived within the endpoint's timeout.
    Timeout(Elapsed),
}

impl From<RecvError> for EndpointError {
    fn from(closed: RecvError) -> (error: Self) {
        EndpointError::ResponseReceive(closed)
    }
}

impl FromSpecImpl<RecvError> for EndpointError {
    open spec fn obeys_from_spec() -> bool {
        true
    }

    open spec fn from_spec(closed: RecvError) -> Self {
        EndpointError::ResponseReceive(closed)
    }
}

impl From<Elapsed> for EndpointError {
    fn from(elapsed: Elapsed) -> (error: Self) {
        EndpointError::Timeout(elapsed)
    }
}

impl FromSpecImpl<Elapsed> for EndpointError {
    open spec fn obeys_from_spec() -> bool {
        true
    }

    open spec fn from_spec(elapsed: Elapsed) -> Self {
        EndpointError::Timeout(elapsed)
    }
}

impl<Request, Response> From<SendError<(Request, Sender<Response>)>> for EndpointError {
    fn from(refused: SendError<(Request, Sender<Response>)>) -> (error: Self) {
        EndpointError::RequestSend
    }
}

impl<Request, Response> FromSpecImpl<SendError<(Request, Sender<Response>)>> for EndpointError {
    open spec fn obeys_from_spec() -> bool {
        true
    }

    open spec fn from_spec(refused: SendError<(Request, Sender<Response>)>) -> Self {
        EndpointError::RequestSend
    }
}

/// One call, ready to be submitted.
#[verifier::reject_recursive_types(Request)]
#[verifier::reject_recursive_types(Response)]
pub struct PreparedCall<Request, Response> {
    /// Where to send `registration`.
    pub registration_sender: Sender<(Request, Sender<Response>)>,
    /// The request, with the sending end of the call's reply channel.
    pub registration: (Request, Sender<Response>),
    /// The receiving end of the call's reply channel.
    pub reply_receiver: Receiver<Response>,
}

/// A handle through which callers submit requests to a router.
#[verifier::reject_recursive_types(Request)]
#[verifier::reject_recursive_types(Response)]
pub struct Endpoint<Request, Response> {
    registration_sender: Sender<(Request, Sender<Response>)>,
    timeout_interval: Option<Duration>,
}

impl<Request, Response> Endpoint<Request, Response> {
    /// How long a call waits for its response: `None` for as long as it
    /// takes.
    pub closed spec fn timeout_spec(&self) -> Option<Duration> {
        self.timeout_interval
    }

    /// The sending end of the registration queue that calls are submitted
    /// to.
    pub closed spec fn registration_sender(&self) -> Sender<(Request, Sender<Response>)> {
        self.registration_sender
    }

    /// An endpoint that submits through `registration_sender` and waits for
    /// `timeout_interval`, or without limit for `None`.
    pub fn new(
        registration_sender: Sender<(Request, Sender<Response>)>,
        timeout_interval: Option<Duration>,
    ) -> (endpoint: Self)
        ensures
            endpoint.registration_sender() == registration_sender,
            endpoint.timeout_spec() == timeout_interval,
    {
        Endpoint { registration_sender, timeout_interval }
    }

    /// How long a call waits for its response: `None` for as long as it
    /// takes.
    #[verifier::when_used_as_spec(timeout_spec)]
    pub fn timeout(&self) -> (interval: Option<Duration>)
        ensures
            interval == self.timeout_spec(),
    {
        self.timeout_interval
    }

    /// Opens a reply channel for one call and pairs its sending end with
    /// `request`, which goes into the registration untouched. The
    /// registration is to go to the endpoint's registration queue.
    pub fn prepare(&self, request: Request) -> (call: PreparedCall<Request, Response>)
        ensures
            call.registration.0 == request,
            call.registration_sender == self.registration_sender(),
    {
        let (reply_sender, reply_receiver) = async_channel::bounded(REPLY_CAPACITY);
        PreparedCall {
            registration_sender: self.registration_sender.clone(),
            registration: (request, reply_sender),
            reply_receiver,
        }
    }

    /// What a call comes to after its submission: it goes on if the
    /// registration queue took the request, and has failed with `RequestSend`
    /// if not.
    pub fn submitted(
        &self,
        sent: Result<(), SendError<(Request, Sender<Response>)>>,
    ) -> (outcome: Result<(), EndpointError>)
        ensures
            sent is Ok ==> outcome is Ok,
            sent is Err ==> outcome matches Err(EndpointError::RequestSend),
    {
        match sent {
            Ok(()) => Ok(()),
            Err(refused) => Err(EndpointError::from(refused)),
        }
    }

    /// What a call comes to when its wait for a reply, without a timer, is
    /// over: the response that arrived, or `ResponseReceive` if the reply
    /// channel was closed first. It is for an endpoint without a timeout.
    pub fn received(
        &self,
        reply: Result<Response, RecvError>,
    ) -> (outcome: Result<Response, EndpointError>)
        requires
            self.timeout() is None,
        ensures
            outcome == Self::outcome_of_reply(reply),
    {
        match reply {
            Ok(response) => Ok(response),
            Err(closed) => Err(EndpointError::from(closed)),
        }
    }

    /// What a call comes to when its wait against the timer is over:
    /// `Timeout` if the timer ran out first, and otherwise the response that
    /// arrived, or `ResponseReceive` if the reply channel was closed first.
    /// It is for an endpoint with a timeout.
    pub fn received_within(
        &self,
        waited: Result<Result<Response, RecvError>, Elapsed>,
    ) -> (outcome: Result<Response, EndpointError>)
        requires
            self.timeout() is Some,
        ensures
            outcome == Self::outcome_of_wait(waited),
    {
        match waited {
            Ok(Ok(response)) => Ok(response),
            Ok(Err(closed)) => Err(EndpointError::from(closed)),
            Err(elapsed) => Err(EndpointError::from(elapsed)),
        }
    }

    /// The result of a call whose wait ended with `reply`.
    pub open spec fn outcome_of_reply(
        reply: Result<Response, RecvError>,
    ) -> Result<Response, EndpointError> {
        match reply {
            Ok(response) => Ok(response),
            Err(closed) => Err(EndpointError::ResponseReceive(closed)),
        }
    }

    /// The result of a call whose timed wait ended with `waited`.
    pub open spec fn outcome_of_wait(
        waited: Result<Result<Response, RecvError>, Elapsed>,
    ) -> Result<Response, EndpointError> {
        match waited {
            Ok(reply) => Self::outcome_of_reply(reply),
            Err(elapsed) => Err(EndpointError::Timeout(elapsed)),
        }
    }

    /// A response that arrives before the timer runs out is the call's
    /// result, unchanged.
    pub proof fn law_reply_in_time_is_returned(response: Response)
        ensures
            Self::outcome_of_wait(Ok(Ok(response))) == (Ok::<Response, EndpointError>(response)),
    {
    }

    /// A timer that runs out before a response arrives ends the call in
    /// `Timeout`.
    pub proof fn law_elapsed_timer_is_timeout(elapsed: Elapsed)
        ensures
            Self::outcome_of_wait(Err(elapsed)) == (Err::<Response, EndpointError>(
                EndpointError::Timeout(elapsed),
            )),
    {
    }

    /// Without a timer a call never ends in `Timeout`, and a response that
    /// arrives is its result, unchanged.
    pub proof fn law_untimed_call_never_times_out(reply: Result<Response, RecvError>)
        ensures
            !(Self::outcome_of_reply(reply) matches Err(EndpointError::Timeout(_))),
            reply matches Ok(response) ==> Self::outcome_of_reply(reply) == (Ok::<
                Response,
                EndpointError,
            >(response)),
    {
    }
}

} // verus!
