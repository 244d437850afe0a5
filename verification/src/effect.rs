//! Requests a workflow run hands to its host, and what the host hands back.
//!
//! A command that must touch the outside world (the file system, the network)
//! does not do so itself: it describes the effect as plain data, the host
//! performs it, and the outcome comes back as an [`IoOutcome`].  The engine
//! is thereby verified for every outcome the host can produce.

use vstd::prelude::*;
use crate::workflow::BasicAuth;

verus! {

/// An HTTP request method the `RestApi` command accepts; any other method
/// named in a workflow document is a configuration error.
#[derive(Debug, Clone, Copy, PartialEq, Eq, Structural)]
pub enum HttpMethod {
    Get,
    Post,
    Put,
    Delete,
    Patch,
}

/// A fully evaluated HTTP request, ready for the host to send.
#[derive(Debug)]
pub struct HttpRequest {
    pub method: HttpMethod,
    pub url: String,
    pub headers: Vec<(String, String)>,
    pub query: Vec<(String, String)>,
    pub body: Option<String>,
    pub auth: Option<BasicAuth>,
}

/// One externally observable effect, described as plain data.
#[derive(Debug)]
pub enum Effect {
    ReadFile { path: String },
    WriteFile { path: String, content: String },
    AppendFile { path: String, content: String },
    DeleteFile { path: String },
    Http { request: HttpRequest },
}

/// What the host answered to an HTTP request it managed to send.
#[derive(Debug)]
pub struct HttpResponse {
    pub status: u16,
    pub body: String,
}

/// The host's answer to one [`Effect`].  A runtime failure travels in the
/// `Err` branch as a human-readable cause; it never aborts the run by
/// itself, the command reports it through its declared output variables.
#[derive(Debug)]
pub enum IoOutcome {
    /// Answer to `ReadFile`: the file's text.
    Content(Result<String, String>),
    /// Answer to `WriteFile`, `AppendFile` and `DeleteFile`.
    Done(Result<(), String>),
    /// Answer to `Http`.
    Http(Result<HttpResponse, String>),
}

} // verus!
