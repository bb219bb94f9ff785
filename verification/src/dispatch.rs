//! From a request to the response that goes back to the server: the handler
//! is called on a worker, and whatever comes of the call, a failure or a
//! panic as much as a response, is settled into one wire response.

use crate::adaptor::{ConduitRequest, RemoteAddr, RequestInfo};
use crate::pool::{PoolView, WorkerPool};
use crate::response::{
    fault_of, is_sendable, is_status_code, lemma_line_break_is_a_fault, validate, wire_of, Response,
    WireResponse, WireResponseView,
};
use vstd::prelude::*;
use vstd::string::*;
use vstd::utf8::*;

verus! {

/// The failure a handler reports. The message is for the log of whoever runs
/// the server: nothing of it reaches the client.
#[derive(Debug)]
pub struct ApplicationError {
    pub message: String,
}

/// The application: a blocking function from a request to a response or a
/// failure.
pub trait Handler {
    fn call(&self, request: &mut ConduitRequest) -> Result<Response, ApplicationError>;
}

/// What came of running the handler on a worker.
pub enum TaskOutcome {
    /// The handler returned a response.
    Succeeded(Response),
    /// The handler reported a failure.
    Failed(ApplicationError),
    /// The handler panicked, and the panic was caught at the edge of the
    /// task.
    Panicked,
}

impl TaskOutcome {
    /// What came of a task in which the handler returned: its response, or
    /// the failure it reported.
    pub fn returned(result: Result<Response, ApplicationError>) -> (task: TaskOutcome)
        ensures
            task == match result {
                Ok(response) => TaskOutcome::Succeeded(response),
                Err(error) => TaskOutcome::Failed(error),
            },
    {
        match result {
            Ok(response) => TaskOutcome::Succeeded(response),
            Err(error) => TaskOutcome::Failed(error),
        }
    }
}

/// What a request is resolved with.
pub enum DispatchOutcome {
    /// The handler's response, found fit to send.
    Validated(WireResponse),
    /// The one response that stands for every failure.
    GenericFailure,
}

/// The response sent for every failure: status 500, no header, and the body
/// `Internal Server Error`.
pub open spec fn generic_failure_view() -> WireResponseView {
    WireResponseView {
        status: 500,
        headers: Seq::empty(),
        body: encode_utf8("Internal Server Error"@),
    }
}

/// Whether a task ended in one of the failures: the handler reported one,
/// the handler panicked, or its response cannot be sent.
pub open spec fn is_failure(task: TaskOutcome) -> bool {
    match task {
        TaskOutcome::Succeeded(response) => fault_of(
            response.status.0 as int,
            response.headers@,
        ) is Some,
        TaskOutcome::Failed(_) => true,
        TaskOutcome::Panicked => true,
    }
}

/// The wire response that a task is resolved with: the handler's response in
/// wire form where there is one and it can be sent, and the generic failure
/// response in every other case.
pub open spec fn response_to(task: TaskOutcome) -> WireResponseView {
    match task {
        TaskOutcome::Succeeded(response) => if fault_of(
            response.status.0 as int,
            response.headers@,
        ) is None {
            wire_of(response.status.0 as int, response.headers@, response.body@)
        } else {
            generic_failure_view()
        },
        TaskOutcome::Failed(_) => generic_failure_view(),
        TaskOutcome::Panicked => generic_failure_view(),
    }
}

/// The response sent for every failure.
pub fn generic_failure() -> (wire: WireResponse)
    ensures
        wire@ == generic_failure_view(),
        is_sendable(wire@),
{
    let headers: Vec<(String, String)> = Vec::new();
    assert(headers.deep_view() =~= Seq::empty());
    WireResponse { status: 500, headers, body: "Internal Server Error".as_bytes_vec() }
}

impl DispatchOutcome {
    /// The outcome in wire form.
    pub open spec fn wire(self) -> WireResponseView {
        match self {
            DispatchOutcome::Validated(wire) => wire@,
            DispatchOutcome::GenericFailure => generic_failure_view(),
        }
    }

    /// Puts the outcome into the form that is sent.
    pub fn into_response(self) -> (wire: WireResponse)
        ensures
            wire@ == self.wire(),
    {
        match self {
            DispatchOutcome::Validated(wire) => wire,
            DispatchOutcome::GenericFailure => generic_failure(),
        }
    }
}

/// Settles what came of a task: a response that passes validation is the
/// outcome, and a response that does not, a reported failure and a panic all
/// become the generic failure.
pub fn settle(task: TaskOutcome) -> (outcome: DispatchOutcome)
    ensures
        outcome is GenericFailure <==> is_failure(task),
        outcome.wire() == response_to(task),
        is_sendable(outcome.wire()),
{
    match task {
        TaskOutcome::Succeeded(response) => match validate(response) {
            Ok(wire) => DispatchOutcome::Validated(wire),
            Err(_) => DispatchOutcome::GenericFailure,
        },
        TaskOutcome::Failed(_) => DispatchOutcome::GenericFailure,
        TaskOutcome::Panicked => DispatchOutcome::GenericFailure,
    }
}

/// The wire response for what came of a task.
pub fn respond(task: TaskOutcome) -> (wire: WireResponse)
    ensures
        wire@ == response_to(task),
        is_sendable(wire@),
{
    settle(task).into_response()
}

/// Any two failures are answered alike: whether the handler reported a
/// failure, panicked, or returned a response that cannot be sent, the
/// response is the generic failure, the same in status, headers and body.
pub proof fn lemma_failures_answered_alike(first: TaskOutcome, second: TaskOutcome)
    requires
        is_failure(first),
        is_failure(second),
    ensures
        response_to(first) == response_to(second),
        response_to(first) == generic_failure_view(),
{
}

/// A response that can be sent is answered as it is: with its own status,
/// its header lines in their order, and its body.
pub proof fn lemma_valid_response_passes(response: Response)
    requires
        fault_of(response.status.0 as int, response.headers@) is None,
    ensures
        !is_failure(TaskOutcome::Succeeded(response)),
        response_to(TaskOutcome::Succeeded(response)) == wire_of(
            response.status.0 as int,
            response.headers@,
            response.body@,
        ),
        response_to(TaskOutcome::Succeeded(response)).status == response.status.0,
        response_to(TaskOutcome::Succeeded(response)).body == response.body@,
{
}

/// A response with a carriage return or a line feed in a header value is
/// answered with the generic failure.
pub proof fn lemma_line_break_is_answered_with_failure(response: Response, i: int, j: int, k: int)
    requires
        0 <= i < response.headers@.len(),
        0 <= j < response.headers@[i].1.len(),
        0 <= k < response.headers@[i].1[j].len(),
        response.headers@[i].1[j][k] == '\r' || response.headers@[i].1[j][k] == '\n',
    ensures
        response_to(TaskOutcome::Succeeded(response)) == generic_failure_view(),
{
    lemma_line_break_is_a_fault(response.status.0 as int, response.headers@, i, j, k);
}

/// A response whose status is no three-digit code is answered with the
/// generic failure.
pub proof fn lemma_bad_status_is_answered_with_failure(response: Response)
    requires
        !is_status_code(response.status.0 as int),
    ensures
        response_to(TaskOutcome::Succeeded(response)) == generic_failure_view(),
{
}

/// A failure that the handler reports is answered with the generic failure,
/// whatever the handler says of it.
pub proof fn lemma_reported_failure_is_answered_with_failure(error: ApplicationError)
    ensures
        response_to(TaskOutcome::Failed(error)) == generic_failure_view(),
{
}

/// A handler together with the number of workers that run it.
pub struct Dispatcher<H> {
    handler: H,
    pool_size: usize,
}

impl<H> Dispatcher<H> {
    #[verifier::type_invariant]
    spec fn has_a_worker(&self) -> bool {
        self.pool_size > 0
    }

    /// The handler.
    pub closed spec fn handler(&self) -> H {
        self.handler
    }

    /// The number of workers.
    pub closed spec fn workers(&self) -> nat {
        self.pool_size as nat
    }
}

impl<H: Handler> Dispatcher<H> {
    /// A dispatcher for the handler with a pool of the given size, which
    /// must be positive.
    pub fn new(handler: H, pool_size: usize) -> (dispatcher: Dispatcher<H>)
        requires
            pool_size > 0,
        ensures
            dispatcher.handler() == handler,
            dispatcher.workers() == pool_size,
    {
        Dispatcher { handler, pool_size }
    }

    /// The number of workers, which is positive.
    pub fn pool_size(&self) -> (size: usize)
        ensures
            size == self.workers(),
            size > 0,
    {
        proof {
            use_type_invariant(self);
        }
        self.pool_size
    }

    /// The pool of this dispatcher's workers, all of them idle, for tasks of
    /// the caller's choice.
    pub fn worker_pool<T>(&self) -> (pool: WorkerPool<T>)
        ensures
            pool@ == (PoolView::<T> { size: self.workers(), busy: 0, waiting: Seq::empty() }),
    {
        proof {
            use_type_invariant(self);
        }
        WorkerPool::new(self.pool_size)
    }

    /// Runs the handler on a request, as a worker does: builds the handler's
    /// request from the snapshot, which must not have been taken before, and
    /// calls the handler with it. What the handler returns is its own
    /// affair; a panic in it passes through this function and is for the
    /// caller to catch.
    pub fn run(
        &self,
        info: &mut RequestInfo,
        remote_addr: RemoteAddr,
        now: conduit::StartInstant,
    ) -> (task: TaskOutcome)
        requires
            old(info).is_pending(),
        ensures
            !final(info).is_pending(),
            !(task is Panicked),
    {
        let mut request = ConduitRequest::new(info, remote_addr, now);
        TaskOutcome::returned(self.handler.call(&mut request))
    }

    /// Serves a request: runs the handler on it and settles what comes back
    /// into the response to send, which is the generic failure unless the
    /// handler returned a response that can be sent.
    pub fn serve(
        &self,
        info: &mut RequestInfo,
        remote_addr: RemoteAddr,
        now: conduit::StartInstant,
    ) -> (wire: WireResponse)
        requires
            old(info).is_pending(),
        ensures
            !final(info).is_pending(),
            is_sendable(wire@),
    {
        let task = self.run(info, remote_addr, now);
        respond(task)
    }
}

} // verus!
