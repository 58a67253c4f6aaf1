//! Recovery from errors of the request handler: every error becomes one
//! generic synthetic response and one warning, and no error text reaches
//! the client.

use vstd::prelude::*;

verus! {

/// A response generated locally in place of the handler's.
#[derive(Clone, Copy, Debug, PartialEq, Eq)]
pub struct SyntheticHttpResponse {
    pub http_status: u16,
    pub grpc_status: u32,
    pub message: &'static str,
}

/// The severity of a log record.
#[derive(Clone, Copy, Debug, PartialEq, Eq, Structural)]
pub enum LogLevel {
    Debug,
    Warn,
}

/// A log record to be emitted for a request.
#[derive(Debug)]
pub struct LogRecord {
    pub level: LogLevel,
    pub message: &'static str,
    /// The text of the error that the record reports.
    pub error: String,
}

/// What is sent back for a request.
#[derive(Debug)]
pub enum HttpResponse<B> {
    /// The handler's own response.
    Handled(B),
    /// A synthetic response that stands in for a failed handler.
    Synthetic(SyntheticHttpResponse),
}

/// The response to a request, and the log records it gave rise to.
#[derive(Debug)]
pub struct Responded<B> {
    pub response: HttpResponse<B>,
    pub logs: Vec<LogRecord>,
}

/// The generic "unexpected error" response: HTTP status 500, gRPC status
/// `INTERNAL` (13), and no detail of the error.
pub open spec fn is_unexpected_error(r: SyntheticHttpResponse) -> bool {
    r.http_status == 500 && r.grpc_status == 13 && r.message@ == "unexpected error"@
}

/// The handler's result as it is sent and logged: a success passes through
/// and logs nothing; an error becomes exactly one unexpected-error response
/// and exactly one warning that carries the error's text.
pub open spec fn responded<B>(result: Result<B, String>, r: Responded<B>) -> bool {
    match result {
        Ok(body) => r.response == HttpResponse::Handled(body) && r.logs@.len() == 0,
        Err(error) => {
            &&& r.response matches HttpResponse::Synthetic(s) && is_unexpected_error(s)
            &&& r.logs@.len() == 1
            &&& r.logs@[0].level == LogLevel::Warn
            &&& r.logs@[0].message@ == "Unexpected error"@
            &&& r.logs@[0].error == error
        },
    }
}

impl SyntheticHttpResponse {
    pub fn unexpected_error() -> (r: Self)
        ensures
            is_unexpected_error(r),
    {
        SyntheticHttpResponse { http_status: 500, grpc_status: 13, message: "unexpected error" }
    }
}

/// Maps the handler's result to what is sent back and logged.
pub fn respond<B>(result: Result<B, String>) -> (r: Responded<B>)
    ensures
        responded(result, r),
{
    match result {
        Ok(body) => Responded { response: HttpResponse::Handled(body), logs: Vec::new() },
        Err(error) => {
            let mut logs: Vec<LogRecord> = Vec::new();
            logs.push(LogRecord { level: LogLevel::Warn, message: "Unexpected error", error });
            Responded {
                response: HttpResponse::Synthetic(SyntheticHttpResponse::unexpected_error()),
                logs,
            }
        },
    }
}

} // verus!
