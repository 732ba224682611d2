//! The values in which results and failures are reported.

use vstd::prelude::*;
use crate::utils::error_handlers::BAD_REQUEST;
use crate::utils::error_handlers::INTERNAL_SERVER_ERROR;

verus! {

/// Rows, or the reason why there are none.
#[derive(Debug)]
pub struct QResult<T> {
    pub rows: T,
    pub error: Option<String>,
}

impl<T> QResult<T> {
    /// A result of the given rows and error.
    pub fn new(rows: T, error: Option<String>) -> (result: QResult<T>)
        ensures
            result == (QResult { rows, error }),
    {
        QResult { rows, error }
    }
}

/// One page of rows with its place among all pages.
#[derive(Debug)]
pub struct PaginatedResult<T> {
    pub result: T,
    pub total_pages: i64,
    pub page: i64,
    pub per_page: i64,
}

impl<T> PaginatedResult<T> {
    /// The page `page` of `total_pages`, with `per_page` rows a page.
    pub fn new(data: T, total_pages: i64, page: i64, per_page: i64) -> (result: PaginatedResult<T>)
        ensures
            result == (PaginatedResult { result: data, total_pages, page, per_page }),
    {
        PaginatedResult { result: data, total_pages, page, per_page }
    }
}

/// The storage engine ran the query and failed it.
#[derive(Debug)]
pub struct BackendError {
    /// The engine's message.
    pub message: String,
}

/// The query was handed to a worker and never ran to its end.
#[derive(Debug)]
pub struct DispatchError {
    /// The worker pool's message.
    pub message: String,
}

/// What running a query came to.
#[derive(Debug)]
pub enum ResultEnum<T> {
    Paginated(Result<Result<(T, i64, i64, i64), BackendError>, DispatchError>),
    NotPaginated(Result<Result<T, BackendError>, DispatchError>),
}

/// The body of a reply.
#[derive(Debug)]
pub enum Payload<'a, T> {
    /// A page of rows.
    Page(PaginatedResult<&'a T>),
    /// Rows that are not paginated.
    Rows(QResult<&'a T>),
    /// No rows, and the cause.
    Failure(QResult<i32>),
}

/// A status and a body.
#[derive(Debug)]
pub struct Reply<'a, T> {
    pub status: u16,
    pub payload: Payload<'a, T>,
}

/// The reply that reports a failure with the given cause.
pub open spec fn failure<'a, T>(status: u16, message: String) -> Reply<'a, T> {
    Reply { status, payload: Payload::Failure(QResult { rows: 0i32, error: Some(message) }) }
}

/// Turns an outcome into a reply.
pub trait CanRespond<T> {
    /// The reply to send where success is reported under `status`.
    spec fn reply<'a>(&'a self, status: u16) -> Reply<'a, T>;

    /// The reply to send. Rows go out under `status`. A query that the engine
    /// failed is a bad request, a query that never ran is a server error, and
    /// both carry the cause.
    fn respond<'a>(&'a self, status: u16) -> (reply: Reply<'a, T>)
        ensures
            reply == self.reply(status),
    ;
}

impl<T> CanRespond<T> for ResultEnum<T> {
    open spec fn reply<'a>(&'a self, status: u16) -> Reply<'a, T> {
        match self {
            ResultEnum::Paginated(Ok(Ok((data, total_pages, page, per_page)))) => Reply {
                status,
                payload: Payload::Page(
                    PaginatedResult {
                        result: data,
                        total_pages: *total_pages,
                        page: *page,
                        per_page: *per_page,
                    },
                ),
            },
            ResultEnum::NotPaginated(Ok(Ok(rows))) => Reply {
                status,
                payload: Payload::Rows(QResult { rows, error: None }),
            },
            ResultEnum::Paginated(Ok(Err(err))) => failure(BAD_REQUEST, err.message),
            ResultEnum::NotPaginated(Ok(Err(err))) => failure(BAD_REQUEST, err.message),
            ResultEnum::Paginated(Err(err)) => failure(INTERNAL_SERVER_ERROR, err.message),
            ResultEnum::NotPaginated(Err(err)) => failure(INTERNAL_SERVER_ERROR, err.message),
        }
    }

    fn respond<'a>(&'a self, status: u16) -> (reply: Reply<'a, T>) {
        match self {
            ResultEnum::Paginated(val) => match val {
                Ok(Ok((data, total_pages, page, per_page))) => Reply {
                    status,
                    payload: Payload::Page(
                        PaginatedResult::new(data, *total_pages, *page, *per_page),
                    ),
                },
                Ok(Err(err)) => Reply {
                    status: BAD_REQUEST,
                    payload: Payload::Failure(QResult::new(0, Some(err.message.clone()))),
                },
                Err(err) => Reply {
                    status: INTERNAL_SERVER_ERROR,
                    payload: Payload::Failure(QResult::new(0, Some(err.message.clone()))),
                },
            },
            ResultEnum::NotPaginated(val) => match val {
                Ok(Ok(val)) => Reply { status, payload: Payload::Rows(QResult::new(val, None)) },
                Ok(Err(err)) => Reply {
                    status: BAD_REQUEST,
                    payload: Payload::Failure(QResult::new(0, Some(err.message.clone()))),
                },
                Err(err) => Reply {
                    status: INTERNAL_SERVER_ERROR,
                    payload: Payload::Failure(QResult::new(0, Some(err.message.clone()))),
                },
            },
        }
    }
}

} // verus!
