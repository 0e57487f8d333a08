//! What crosses the work queue: requests to the worker and its answers.
use crate::services::{MiscError, ServiceError};
use vstd::prelude::*;

verus! {

/// A request to fetch a URL.
#[derive(Debug, Clone)]
pub struct GetRequestPayload {
    pub url: String,
}

/// A request to look up an account by webfinger.
#[derive(Debug, Clone)]
pub struct GetWebfingerPayload {
    pub username: String,
    pub host: String,
}

/// The worker's answer: a value, or a failure.
#[derive(Debug)]
pub enum ResponsePayload<T, E> {
    Success(T),
    Failed(ResponseErrorPayload<E>),
}

/// A failure reported by the worker: one the operation names, or a general
/// one with its message and status.
#[derive(Debug)]
pub enum ResponseErrorPayload<E> {
    Error(E),
    Other(String, i32),
}

/// A general failure that the worker reported. Its message is not shown to
/// clients; its status is.
#[derive(Debug, Clone)]
pub struct BackgroundProcessingError {
    pub message: String,
    pub status: i32,
}

impl BackgroundProcessingError {
    pub fn new(message: &str, status: i32) -> (r: Self)
        ensures
            r.message@ == message@,
            r.status == status,
    {
        Self { message: message.to_owned(), status }
    }
}

impl MiscError for BackgroundProcessingError {
    open spec fn spec_message(&self) -> Seq<char> {
        "internal server error"@
    }

    open spec fn spec_status(&self) -> i32 {
        self.status
    }

    fn message(&self) -> (r: String) {
        "internal server error".to_owned()
    }

    fn status_code(&self) -> (r: i32) {
        self.status
    }
}

/// The worker did not answer in time.
#[derive(Debug, Clone, Copy)]
pub struct TaskTimeoutError {}

impl TaskTimeoutError {
    pub fn new() -> (r: Self) {
        Self {}
    }
}

impl MiscError for TaskTimeoutError {
    open spec fn spec_message(&self) -> Seq<char> {
        "server is too busy"@
    }

    open spec fn spec_status(&self) -> i32 {
        503
    }

    fn message(&self) -> (r: String) {
        "server is too busy".to_owned()
    }

    fn status_code(&self) -> (r: i32) {
        503
    }
}

/// The outcome a worker answer stands for.
pub open spec fn answer_outcome<T, E>(p: ResponsePayload<T, E>) -> Result<T, Result<E, (Seq<char>, i32)>> {
    match p {
        ResponsePayload::Success(t) => Ok(t),
        ResponsePayload::Failed(ResponseErrorPayload::Error(e)) => Err(Ok(e)),
        ResponsePayload::Failed(ResponseErrorPayload::Other(m, s)) => Err(Err((m@, s))),
    }
}

/// The outcome a service result stands for (a general failure by its message and status).
pub open spec fn result_outcome<T, E>(r: Result<T, ServiceError<E>>) -> Result<T, Result<E, (Seq<char>, i32)>> {
    match r {
        Ok(t) => Ok(t),
        Err(ServiceError::SpecificError(e)) => Err(Ok(e)),
        Err(ServiceError::MiscError(m)) => Err(Err((m.message@, m.status))),
    }
}

/// `back` is what the answer `p` reports: its value, its specific error, or
/// for a general failure a `BackgroundProcessingError` with the same status
/// and the message "internal server error".
pub open spec fn reported_back<T, E>(p: ResponsePayload<T, E>, back: Result<T, ServiceError<E>>) -> bool {
    match answer_outcome(p) {
        Ok(t) => back == Ok::<T, ServiceError<E>>(t),
        Err(Ok(e)) => back == Err::<T, ServiceError<E>>(ServiceError::SpecificError(e)),
        Err(Err((_, s))) => back matches Err(ServiceError::MiscError(m)) && m.status == s
            && m.message@ == "internal server error"@,
    }
}

impl<T, E> ResponsePayload<T, E> {
    /// The answer that reports a service result.
    pub fn from_result(value: Result<T, ServiceError<E>>) -> (r: Self)
        ensures
            answer_outcome(r) == result_outcome(value),
    {
        match value {
            Ok(v) => ResponsePayload::Success(v),
            Err(e) => match e {
                ServiceError::SpecificError(e) => ResponsePayload::Failed(
                    ResponseErrorPayload::Error(e),
                ),
                ServiceError::MiscError(e) => ResponsePayload::Failed(
                    ResponseErrorPayload::Other(e.message(), e.status_code()),
                ),
            },
        }
    }

    /// The service result that an answer reports. A general failure becomes
    /// a `BackgroundProcessingError`, which keeps the status and reports
    /// the message "internal server error".
    pub fn into_result(self) -> (r: Result<T, ServiceError<E>>)
        ensures
            reported_back(self, r),
    {
        match self {
            ResponsePayload::Success(t) => Ok(t),
            ResponsePayload::Failed(e) => Err(
                match e {
                    ResponseErrorPayload::Error(e) => ServiceError::SpecificError(e),
                    ResponseErrorPayload::Other(o, s) => {
                        let b = BackgroundProcessingError::new(o.as_str(), s);
                        ServiceError::MiscError(crate::services::misc_failure_of(&b))
                    },
                },
            ),
        }
    }
}

/// What waiting for a worker's answer gives: the answer carried back, or,
/// when none came in time (or the worker went away), a failure saying that
/// the server is too busy.
pub fn worker_answer<T, E>(received: Option<ResponsePayload<T, E>>) -> (r: Result<T, ServiceError<E>>)
    ensures
        match received {
            Some(p) => reported_back(p, r),
            None => r matches Err(ServiceError::MiscError(m)) && m.status == 503 && m.message@
                == "server is too busy"@,
        },
{
    match received {
        Some(p) => p.into_result(),
        None => Err(ServiceError::MiscError(crate::services::misc_failure_of(&TaskTimeoutError::new()))),
    }
}

/// A result sent through the worker (`from_result`, then `into_result`)
/// comes back the same, except that a general failure keeps only its status.
pub proof fn lemma_payload_roundtrip<T, E>(
    value: Result<T, ServiceError<E>>,
    p: ResponsePayload<T, E>,
    back: Result<T, ServiceError<E>>,
)
    requires
        answer_outcome(p) == result_outcome(value),
        reported_back(p, back),
    ensures
        match value {
            Ok(t) => back == Ok::<T, ServiceError<E>>(t),
            Err(ServiceError::SpecificError(e)) => back == Err::<T, ServiceError<E>>(
                ServiceError::SpecificError(e),
            ),
            Err(ServiceError::MiscError(m)) => back matches Err(ServiceError::MiscError(m2))
                && m2.status == m.status,
        },
{
}

} // verus!
