//! The conditional fetch client: which request is sent for a feed, and
//! what a response means.
//!
//! The request itself is made by the caller's `send` function, so that
//! everything around it is decided here.

use crate::config::ConditionalType;
use crate::text::{concat3, opt_text};
use vstd::prelude::*;
use vstd::string::*;

verus! {

/// The version of this tool, as sent to feed servers.
pub const VERSION: &'static str = "0.1.0";

/// What stands before the version in the client identity.
pub const USER_AGENT_PREFIX: &'static str = "feed-to-epub ";

/// What stands after the version in the client identity.
pub const USER_AGENT_SUFFIX: &'static str = "; +https:/github.com/catouc/feed-to-epub";

/// The header that carries an entity tag, in a request and in a
/// response.
pub const ETAG_HEADER: &'static str = "ETag";

/// The response header that carries the modification date of a feed.
pub const LAST_MODIFIED_HEADER: &'static str = "Last-Modified";

/// The request header that carries a modification date.
pub const IF_MODIFIED_SINCE_HEADER: &'static str = "If-Modified-Since";

/// The status of a response without new content.
pub const STATUS_NOT_MODIFIED: u16 = 304;

/// The status of a response that asks the client to slow down.
pub const STATUS_TOO_MANY_REQUESTS: u16 = 429;

/// One header of a request.
#[derive(Clone, Debug, PartialEq)]
pub struct Header {
    pub name: String,
    pub value: String,
}

/// A conditional GET request for a feed.
#[derive(Clone, Debug, PartialEq)]
pub struct FetchRequest {
    pub url: String,
    /// The validator header; `None` asks unconditionally.
    pub header: Option<Header>,
    /// The identity of this client.
    pub user_agent: String,
    /// The bound on the time the request may take, in seconds.
    pub timeout_secs: u64,
}

/// What the caller's `send` function read from a response.
#[derive(Clone, Debug, PartialEq)]
pub struct HttpResponse {
    pub status: u16,
    /// The header [`LAST_MODIFIED_HEADER`], where the response has one.
    pub last_modified: Option<String>,
    /// The header [`ETAG_HEADER`], where the response has one.
    pub etag: Option<String>,
    pub body: Vec<u8>,
}

/// Why a fetch brought no outcome.
#[derive(Clone, Debug, PartialEq)]
pub enum TransportError {
    /// The server answered with an error status.
    Status(u16),
    /// No answer arrived; the text says why.
    Transport(String),
}

/// What a fetch brought.
#[derive(Clone, Debug, PartialEq)]
pub enum FetchOutcome {
    /// New content, with the validators the server sent along.
    Fresh { body: Vec<u8>, new_last_modified: Option<String>, new_etag: Option<String> },
    /// Nothing new; a server may still send new validators.
    NotModified { new_last_modified: Option<String>, new_etag: Option<String> },
    /// The server asks the client to slow down.
    RateLimited,
}

/// The mathematical content of a [`FetchOutcome`].
pub enum FetchOutcomeView {
    Fresh { body: Seq<u8>, new_last_modified: Option<Seq<char>>, new_etag: Option<Seq<char>> },
    NotModified { new_last_modified: Option<Seq<char>>, new_etag: Option<Seq<char>> },
    RateLimited,
}

impl View for FetchOutcome {
    type V = FetchOutcomeView;

    open spec fn view(&self) -> FetchOutcomeView {
        match *self {
            FetchOutcome::Fresh { body, new_last_modified, new_etag } => FetchOutcomeView::Fresh {
                body: body@,
                new_last_modified: opt_text(new_last_modified),
                new_etag: opt_text(new_etag),
            },
            FetchOutcome::NotModified {
                new_last_modified,
                new_etag,
            } => FetchOutcomeView::NotModified {
                new_last_modified: opt_text(new_last_modified),
                new_etag: opt_text(new_etag),
            },
            FetchOutcome::RateLimited => FetchOutcomeView::RateLimited,
        }
    }
}

/// The mathematical content of a [`Header`].
pub struct HeaderView {
    pub name: Seq<char>,
    pub value: Seq<char>,
}

impl View for Header {
    type V = HeaderView;

    open spec fn view(&self) -> HeaderView {
        HeaderView { name: self.name@, value: self.value@ }
    }
}

/// The content of an optional header.
pub open spec fn opt_header(header: Option<Header>) -> Option<HeaderView> {
    match header {
        Some(h) => Some(h@),
        None => None,
    }
}

/// The mathematical content of a [`FetchRequest`].
pub struct FetchRequestView {
    pub url: Seq<char>,
    pub header: Option<HeaderView>,
    pub user_agent: Seq<char>,
    pub timeout_secs: u64,
}

impl View for FetchRequest {
    type V = FetchRequestView;

    open spec fn view(&self) -> FetchRequestView {
        FetchRequestView {
            url: self.url@,
            header: opt_header(self.header),
            user_agent: self.user_agent@,
            timeout_secs: self.timeout_secs,
        }
    }
}

/// The mathematical content of an [`HttpResponse`].
pub struct HttpResponseView {
    pub status: u16,
    pub last_modified: Option<Seq<char>>,
    pub etag: Option<Seq<char>>,
    pub body: Seq<u8>,
}

impl View for HttpResponse {
    type V = HttpResponseView;

    open spec fn view(&self) -> HttpResponseView {
        HttpResponseView {
            status: self.status,
            last_modified: opt_text(self.last_modified),
            etag: opt_text(self.etag),
            body: self.body@,
        }
    }
}

/// The header that a request of kind `kind` carries: the validator the
/// kind selects, under its header name; none where that validator is
/// absent or no kind is configured.
pub open spec fn conditional_header(
    kind: Option<ConditionalType>,
    last_modified: Option<Seq<char>>,
    etag: Option<Seq<char>>,
) -> Option<HeaderView> {
    match kind {
        Some(ConditionalType::ETag) => match etag {
            Some(token) => Some(HeaderView { name: ETAG_HEADER@, value: token }),
            None => None,
        },
        Some(ConditionalType::LastModified) => match last_modified {
            Some(token) => Some(HeaderView { name: IF_MODIFIED_SINCE_HEADER@, value: token }),
            None => None,
        },
        None => None,
    }
}

/// The one request that fetches `url`: a GET that is conditional on the
/// validator that `kind` selects, names this client and is bounded by
/// `timeout_secs`.
pub open spec fn conditional_request(
    url: Seq<char>,
    last_modified: Option<Seq<char>>,
    etag: Option<Seq<char>>,
    kind: Option<ConditionalType>,
    timeout_secs: u64,
) -> FetchRequestView {
    FetchRequestView {
        url,
        header: conditional_header(kind, last_modified, etag),
        user_agent: user_agent_text(),
        timeout_secs,
    }
}

/// The identity this client sends: the tool's name and version.
pub open spec fn user_agent_text() -> Seq<char> {
    USER_AGENT_PREFIX@ + VERSION@ + USER_AGENT_SUFFIX@
}

/// Whether a status stands for an answer that was served.
pub open spec fn is_success(status: u16) -> bool {
    200 <= status < 400
}

/// What a response means, by its status alone: 304 is not modified,
/// 429 is rate limited, any other served answer is fresh data, and any
/// other status is a failure that is returned as it is. The validators
/// of the response go along with fresh data and with not modified.
pub open spec fn classification(response: HttpResponseView) -> Result<FetchOutcomeView, u16> {
    if response.status == STATUS_NOT_MODIFIED {
        Ok(
            FetchOutcomeView::NotModified {
                new_last_modified: response.last_modified,
                new_etag: response.etag,
            },
        )
    } else if response.status == STATUS_TOO_MANY_REQUESTS {
        Ok(FetchOutcomeView::RateLimited)
    } else if is_success(response.status) {
        Ok(
            FetchOutcomeView::Fresh {
                body: response.body,
                new_last_modified: response.last_modified,
                new_etag: response.etag,
            },
        )
    } else {
        Err(response.status)
    }
}

/// The identity this client sends with every request.
pub fn user_agent() -> (agent: String)
    ensures
        agent@ == user_agent_text(),
{
    concat3(USER_AGENT_PREFIX, VERSION, USER_AGENT_SUFFIX)
}

/// The validator header for a request of kind `kind`.
pub fn header_for(
    kind: Option<ConditionalType>,
    last_modified: &Option<String>,
    etag: &Option<String>,
) -> (header: Option<Header>)
    ensures
        opt_header(header) == conditional_header(kind, opt_text(*last_modified), opt_text(*etag)),
{
    match kind {
        Some(ConditionalType::ETag) => match etag {
            Some(token) => Some(Header { name: ETAG_HEADER.to_owned(), value: token.clone() }),
            None => None,
        },
        Some(ConditionalType::LastModified) => match last_modified {
            Some(token) => Some(
                Header { name: IF_MODIFIED_SINCE_HEADER.to_owned(), value: token.clone() },
            ),
            None => None,
        },
        None => None,
    }
}

/// The one request that fetches `url`: conditional on the validator
/// that `kind` selects, bounded by `timeout_secs`.
pub fn request_for(
    url: &str,
    last_modified: &Option<String>,
    etag: &Option<String>,
    kind: Option<ConditionalType>,
    timeout_secs: u64,
) -> (request: FetchRequest)
    ensures
        request@ == conditional_request(
            url@,
            opt_text(*last_modified),
            opt_text(*etag),
            kind,
            timeout_secs,
        ),
{
    FetchRequest {
        url: url.to_owned(),
        header: header_for(kind, last_modified, etag),
        user_agent: user_agent(),
        timeout_secs,
    }
}

/// Whether `request` is the one request for `url` with the validator
/// that `kind` selects.
pub open spec fn is_request_for(
    request: FetchRequest,
    url: Seq<char>,
    last_modified: Option<Seq<char>>,
    etag: Option<Seq<char>>,
    kind: Option<ConditionalType>,
    timeout_secs: u64,
) -> bool {
    request@ == conditional_request(url, last_modified, etag, kind, timeout_secs)
}

/// Whether `outcome` is what `response` means.
pub open spec fn is_meaning_of(
    response: HttpResponse,
    outcome: Result<FetchOutcome, TransportError>,
) -> bool {
    match classification(response@) {
        Ok(meaning) => outcome.is_ok() && outcome.unwrap()@ == meaning,
        Err(status) => outcome == Err::<FetchOutcome, TransportError>(
            TransportError::Status(status),
        ),
    }
}

/// Whether `outcome` is what the answer of a `send` function means: a
/// failure is passed on as it is, a response is classified.
pub open spec fn is_outcome_of(
    answer: Result<HttpResponse, TransportError>,
    outcome: Result<FetchOutcome, TransportError>,
) -> bool {
    match answer {
        Ok(response) => is_meaning_of(response, outcome),
        Err(e) => outcome == Err::<FetchOutcome, TransportError>(e),
    }
}

/// What `response` means, by its status alone: 304 is not modified,
/// 429 is rate limited, any other served answer is fresh data, and
/// any other status is a failure.
pub fn classify(response: HttpResponse) -> (outcome: Result<FetchOutcome, TransportError>)
    ensures
        is_meaning_of(response, outcome),
{
    let HttpResponse { status, last_modified, etag, body } = response;
    if status == STATUS_NOT_MODIFIED {
        Ok(FetchOutcome::NotModified { new_last_modified: last_modified, new_etag: etag })
    } else if status == STATUS_TOO_MANY_REQUESTS {
        Ok(FetchOutcome::RateLimited)
    } else if 200 <= status && status < 400 {
        Ok(FetchOutcome::Fresh { body, new_last_modified: last_modified, new_etag: etag })
    } else {
        Err(TransportError::Status(status))
    }
}

/// Hands `request` to `send` and classifies what comes back. A failure
/// of `send` is passed on as it is; nothing is tried again.
pub fn dispatch<F: Fn(&FetchRequest) -> Result<HttpResponse, TransportError>>(
    request: &FetchRequest,
    send: &F,
) -> (outcome: Result<FetchOutcome, TransportError>)
    requires
        call_requires(send, (request,)),
    ensures
        exists|answer: Result<HttpResponse, TransportError>|
            call_ensures(send, (request,), answer) && is_outcome_of(answer, outcome),
{
    let answer = send(request);
    let ghost seen = answer;
    let outcome = match answer {
        Ok(response) => classify(response),
        Err(e) => Err(e),
    };
    proof {
        assert(call_ensures(send, (request,), seen) && is_outcome_of(seen, outcome));
    }
    outcome
}

/// Fetches `url` once: builds the one request for it, conditional on
/// the validator that `kind` selects, hands it to `send`, and
/// classifies what comes back.
pub fn fetch<F: Fn(&FetchRequest) -> Result<HttpResponse, TransportError>>(
    url: &str,
    last_modified: &Option<String>,
    etag: &Option<String>,
    kind: Option<ConditionalType>,
    timeout_secs: u64,
    send: &F,
) -> (outcome: Result<FetchOutcome, TransportError>)
    requires
        forall|request: &FetchRequest|
            is_request_for(
                *request,
                url@,
                opt_text(*last_modified),
                opt_text(*etag),
                kind,
                timeout_secs,
            ) ==> call_requires(send, (request,)),
    ensures
        exists|request: FetchRequest, answer: Result<HttpResponse, TransportError>|
            is_request_for(
                request,
                url@,
                opt_text(*last_modified),
                opt_text(*etag),
                kind,
                timeout_secs,
            ) && call_ensures(send, (&request,), answer) && is_outcome_of(answer, outcome),
{
    let request = request_for(url, last_modified, etag, kind, timeout_secs);
    proof {
        assert(is_request_for(
            request,
            url@,
            opt_text(*last_modified),
            opt_text(*etag),
            kind,
            timeout_secs,
        ));
    }
    dispatch(&request, send)
}

} // verus!
