//! The transport's error taxonomy.
//!
//! Every failure that reaches a caller is one value of [`TransportError`]. A
//! lower-level failure is reduced to the few signals the classification reads
//! ([`TransportFailure`]) and mapped to exactly one variant by [`classify`].
use vstd::prelude::*;
use vstd::string::*;

verus! {

/// The tag of a [`TransportError`], without its detail text.
#[derive(Clone, Copy, Debug, PartialEq, Eq, Structural)]
pub enum ErrorKind {
    RequestTimeout,
    ConnectTimeout,
    ReadTimeout,
    ConnectError,
    ReadError,
    WriteError,
    PoolTimeout,
    SSLError,
    ProxyError,
    LocalProtocolError,
    RemoteProtocolError,
    InvalidURL,
    TooManyRedirects,
    Other,
}

/// A failure of the transport: a kind and a human-readable detail.
#[derive(Debug, Clone)]
pub enum TransportError {
    RequestTimeout(String),
    ConnectTimeout(String),
    ReadTimeout(String),
    ConnectError(String),
    ReadError(String),
    WriteError(String),
    PoolTimeout(String),
    SSLError(String),
    ProxyError(String),
    LocalProtocolError(String),
    RemoteProtocolError(String),
    InvalidURL(String),
    TooManyRedirects,
    Other(String),
}

/// Result type for transport operations.
pub type TransportResult<T> = Result<T, TransportError>;

impl View for TransportError {
    type V = (ErrorKind, Seq<char>);

    /// An error is its kind and its detail text; `TooManyRedirects` carries
    /// no detail.
    open spec fn view(&self) -> (ErrorKind, Seq<char>) {
        match self {
            TransportError::RequestTimeout(m) => (ErrorKind::RequestTimeout, m@),
            TransportError::ConnectTimeout(m) => (ErrorKind::ConnectTimeout, m@),
            TransportError::ReadTimeout(m) => (ErrorKind::ReadTimeout, m@),
            TransportError::ConnectError(m) => (ErrorKind::ConnectError, m@),
            TransportError::ReadError(m) => (ErrorKind::ReadError, m@),
            TransportError::WriteError(m) => (ErrorKind::WriteError, m@),
            TransportError::PoolTimeout(m) => (ErrorKind::PoolTimeout, m@),
            TransportError::SSLError(m) => (ErrorKind::SSLError, m@),
            TransportError::ProxyError(m) => (ErrorKind::ProxyError, m@),
            TransportError::LocalProtocolError(m) => (ErrorKind::LocalProtocolError, m@),
            TransportError::RemoteProtocolError(m) => (ErrorKind::RemoteProtocolError, m@),
            TransportError::InvalidURL(m) => (ErrorKind::InvalidURL, m@),
            TransportError::TooManyRedirects => (ErrorKind::TooManyRedirects, Seq::empty()),
            TransportError::Other(m) => (ErrorKind::Other, m@),
        }
    }
}

/// The detail that an error of `kind` keeps of `detail`: all of it, except
/// that `TooManyRedirects` keeps none.
pub open spec fn kept_detail(kind: ErrorKind, detail: Seq<char>) -> Seq<char> {
    if kind == ErrorKind::TooManyRedirects {
        Seq::empty()
    } else {
        detail
    }
}

/// What the error's text starts with, by kind.
pub open spec fn display_prefix(kind: ErrorKind) -> Seq<char> {
    match kind {
        ErrorKind::RequestTimeout => "Request timeout: "@,
        ErrorKind::ConnectTimeout => "Connect timeout: "@,
        ErrorKind::ReadTimeout => "Read timeout: "@,
        ErrorKind::ConnectError => "Connection error: "@,
        ErrorKind::ReadError => "Read error: "@,
        ErrorKind::WriteError => "Write error: "@,
        ErrorKind::PoolTimeout => "Pool timeout: "@,
        ErrorKind::SSLError => "SSL error: "@,
        ErrorKind::ProxyError => "Proxy error: "@,
        ErrorKind::LocalProtocolError => "Local protocol error: "@,
        ErrorKind::RemoteProtocolError => "Remote protocol error: "@,
        ErrorKind::InvalidURL => "Invalid URL: "@,
        ErrorKind::TooManyRedirects => "Too many redirects"@,
        ErrorKind::Other => "Other error: "@,
    }
}

impl TransportError {
    /// Builds the error of the given kind. `TooManyRedirects` drops the
    /// detail.
    pub fn new(kind: ErrorKind, detail: String) -> (err: TransportError)
        ensures
            err@ == (kind, kept_detail(kind, detail@)),
    {
        match kind {
            ErrorKind::RequestTimeout => TransportError::RequestTimeout(detail),
            ErrorKind::ConnectTimeout => TransportError::ConnectTimeout(detail),
            ErrorKind::ReadTimeout => TransportError::ReadTimeout(detail),
            ErrorKind::ConnectError => TransportError::ConnectError(detail),
            ErrorKind::ReadError => TransportError::ReadError(detail),
            ErrorKind::WriteError => TransportError::WriteError(detail),
            ErrorKind::PoolTimeout => TransportError::PoolTimeout(detail),
            ErrorKind::SSLError => TransportError::SSLError(detail),
            ErrorKind::ProxyError => TransportError::ProxyError(detail),
            ErrorKind::LocalProtocolError => TransportError::LocalProtocolError(detail),
            ErrorKind::RemoteProtocolError => TransportError::RemoteProtocolError(detail),
            ErrorKind::InvalidURL => TransportError::InvalidURL(detail),
            ErrorKind::TooManyRedirects => TransportError::TooManyRedirects,
            ErrorKind::Other => TransportError::Other(detail),
        }
    }

    /// The error's kind.
    pub fn kind(&self) -> (kind: ErrorKind)
        ensures
            kind == self@.0,
    {
        match self {
            TransportError::RequestTimeout(_) => ErrorKind::RequestTimeout,
            TransportError::ConnectTimeout(_) => ErrorKind::ConnectTimeout,
            TransportError::ReadTimeout(_) => ErrorKind::ReadTimeout,
            TransportError::ConnectError(_) => ErrorKind::ConnectError,
            TransportError::ReadError(_) => ErrorKind::ReadError,
            TransportError::WriteError(_) => ErrorKind::WriteError,
            TransportError::PoolTimeout(_) => ErrorKind::PoolTimeout,
            TransportError::SSLError(_) => ErrorKind::SSLError,
            TransportError::ProxyError(_) => ErrorKind::ProxyError,
            TransportError::LocalProtocolError(_) => ErrorKind::LocalProtocolError,
            TransportError::RemoteProtocolError(_) => ErrorKind::RemoteProtocolError,
            TransportError::InvalidURL(_) => ErrorKind::InvalidURL,
            TransportError::TooManyRedirects => ErrorKind::TooManyRedirects,
            TransportError::Other(_) => ErrorKind::Other,
        }
    }

    /// The error's detail text (empty for `TooManyRedirects`).
    pub fn detail(&self) -> (detail: &str)
        ensures
            detail@ == self@.1,
    {
        match self {
            TransportError::RequestTimeout(m) => m.as_str(),
            TransportError::ConnectTimeout(m) => m.as_str(),
            TransportError::ReadTimeout(m) => m.as_str(),
            TransportError::ConnectError(m) => m.as_str(),
            TransportError::ReadError(m) => m.as_str(),
            TransportError::WriteError(m) => m.as_str(),
            TransportError::PoolTimeout(m) => m.as_str(),
            TransportError::SSLError(m) => m.as_str(),
            TransportError::ProxyError(m) => m.as_str(),
            TransportError::LocalProtocolError(m) => m.as_str(),
            TransportError::RemoteProtocolError(m) => m.as_str(),
            TransportError::InvalidURL(m) => m.as_str(),
            TransportError::TooManyRedirects => {
                proof {
                    reveal_strlit("");
                }
                ""
            },
            TransportError::Other(m) => m.as_str(),
        }
    }

    /// The error as text: the prefix of its kind, then its detail.
    pub fn to_string(&self) -> (text: String)
        ensures
            text@ == display_prefix(self@.0) + self@.1,
    {
        let prefix: &str = match self.kind() {
            ErrorKind::RequestTimeout => "Request timeout: ",
            ErrorKind::ConnectTimeout => "Connect timeout: ",
            ErrorKind::ReadTimeout => "Read timeout: ",
            ErrorKind::ConnectError => "Connection error: ",
            ErrorKind::ReadError => "Read error: ",
            ErrorKind::WriteError => "Write error: ",
            ErrorKind::PoolTimeout => "Pool timeout: ",
            ErrorKind::SSLError => "SSL error: ",
            ErrorKind::ProxyError => "Proxy error: ",
            ErrorKind::LocalProtocolError => "Local protocol error: ",
            ErrorKind::RemoteProtocolError => "Remote protocol error: ",
            ErrorKind::InvalidURL => "Invalid URL: ",
            ErrorKind::TooManyRedirects => "Too many redirects",
            ErrorKind::Other => "Other error: ",
        };
        String::from_str(prefix).concat(self.detail())
    }

    /// A copy of the error, equal to it in kind and detail.
    pub fn duplicate(&self) -> (copy: TransportError)
        ensures
            copy@ == self@,
    {
        TransportError::new(self.kind(), String::from_str(self.detail()))
    }
}

/// The signals that the classification reads from a lower-level failure.
pub struct TransportFailure {
    /// The failure is a timeout.
    pub is_timeout: bool,
    /// The failure happened while connecting.
    pub is_connect: bool,
    /// The redirect limit was exceeded.
    pub is_redirect: bool,
    /// The request could not be built or sent as given.
    pub is_request: bool,
    /// The failure's own text.
    pub message: String,
}

/// The classification rule, in priority order: a timeout while connecting, any
/// other timeout, a connection failure, the redirect limit, a malformed
/// request, and whatever is left.
pub open spec fn classify_kind(
    is_timeout: bool,
    is_connect: bool,
    is_redirect: bool,
    is_request: bool,
) -> ErrorKind {
    if is_timeout && is_connect {
        ErrorKind::ConnectTimeout
    } else if is_timeout {
        ErrorKind::RequestTimeout
    } else if is_connect {
        ErrorKind::ConnectError
    } else if is_redirect {
        ErrorKind::TooManyRedirects
    } else if is_request {
        ErrorKind::LocalProtocolError
    } else {
        ErrorKind::Other
    }
}

/// The kinds that the classification can produce.
pub open spec fn is_classified_kind(kind: ErrorKind) -> bool {
    kind == ErrorKind::ConnectTimeout || kind == ErrorKind::RequestTimeout || kind
        == ErrorKind::ConnectError || kind == ErrorKind::TooManyRedirects || kind
        == ErrorKind::LocalProtocolError || kind == ErrorKind::Other
}

/// Maps a failure to the one error that the classification rule gives it. The
/// error carries the failure's text, except `TooManyRedirects`, which carries
/// none.
pub fn classify(failure: TransportFailure) -> (err: TransportError)
    ensures
        err@.0 == classify_kind(
            failure.is_timeout,
            failure.is_connect,
            failure.is_redirect,
            failure.is_request,
        ),
        err@.1 == kept_detail(err@.0, failure.message@),
{
    if failure.is_timeout {
        if failure.is_connect {
            TransportError::ConnectTimeout(failure.message)
        } else {
            TransportError::RequestTimeout(failure.message)
        }
    } else if failure.is_connect {
        TransportError::ConnectError(failure.message)
    } else if failure.is_redirect {
        TransportError::TooManyRedirects
    } else if failure.is_request {
        TransportError::LocalProtocolError(failure.message)
    } else {
        TransportError::Other(failure.message)
    }
}

/// The classification produces six of the fourteen kinds and no other: the
/// kinds for read, write, pool, TLS, proxy and remote-protocol failures and
/// for invalid URLs are never the result of classifying a failure.
pub proof fn classification_is_coarse(
    is_timeout: bool,
    is_connect: bool,
    is_redirect: bool,
    is_request: bool,
)
    ensures
        is_classified_kind(classify_kind(is_timeout, is_connect, is_redirect, is_request)),
{
}

/// Every kind that the classification can produce is produced for some
/// failure.
pub proof fn classification_reaches(kind: ErrorKind)
    requires
        is_classified_kind(kind),
    ensures
        exists|t: bool, c: bool, r: bool, q: bool| #[trigger] classify_kind(t, c, r, q) == kind,
{
    assert(classify_kind(true, true, false, false) == ErrorKind::ConnectTimeout);
    assert(classify_kind(true, false, false, false) == ErrorKind::RequestTimeout);
    assert(classify_kind(false, true, false, false) == ErrorKind::ConnectError);
    assert(classify_kind(false, false, true, false) == ErrorKind::TooManyRedirects);
    assert(classify_kind(false, false, false, true) == ErrorKind::LocalProtocolError);
    assert(classify_kind(false, false, false, false) == ErrorKind::Other);
}

/// `reqwest::Error`, the failure of the HTTP client.
#[verifier::external_type_specification]
#[verifier::external_body]
pub struct ExReqwestError(reqwest::Error);

/// What `reqwest::Error::is_timeout` answers for a failure: whether a timeout
/// is among its causes.
pub uninterp spec fn reqwest_is_timeout(err: reqwest::Error) -> bool;

/// What `reqwest::Error::is_connect` answers for a failure: whether a
/// connection failure is among its causes.
pub uninterp spec fn reqwest_is_connect(err: reqwest::Error) -> bool;

/// What `reqwest::Error::is_redirect` answers for a failure: whether it comes
/// from the redirect policy.
pub uninterp spec fn reqwest_is_redirect(err: reqwest::Error) -> bool;

/// What `reqwest::Error::is_request` answers for a failure: whether it is
/// related to the request.
pub uninterp spec fn reqwest_is_request(err: reqwest::Error) -> bool;

/// The text that the `Display` of `reqwest::Error` writes for a failure.
pub uninterp spec fn reqwest_text(err: reqwest::Error) -> Seq<char>;

/// `reqwest::Error::is_timeout`. The answer depends on the failure alone.
pub assume_specification[ reqwest::Error::is_timeout ](err: &reqwest::Error) -> (yes: bool)
    ensures
        yes == reqwest_is_timeout(*err),
;

/// `reqwest::Error::is_connect`. The answer depends on the failure alone.
pub assume_specification[ reqwest::Error::is_connect ](err: &reqwest::Error) -> (yes: bool)
    ensures
        yes == reqwest_is_connect(*err),
;

/// `reqwest::Error::is_redirect`. The answer depends on the failure alone.
pub assume_specification[ reqwest::Error::is_redirect ](err: &reqwest::Error) -> (yes: bool)
    ensures
        yes == reqwest_is_redirect(*err),
;

/// `reqwest::Error::is_request`. The answer depends on the failure alone.
pub assume_specification[ reqwest::Error::is_request ](err: &reqwest::Error) -> (yes: bool)
    ensures
        yes == reqwest_is_request(*err),
;

/// The text of a `reqwest::Error`, as its `Display` writes it. The text
/// depends on the failure alone.
#[verifier::external_body]
fn reqwest_error_text(err: &reqwest::Error) -> (text: String)
    ensures
        text@ == reqwest_text(*err),
{
    err.to_string()
}

/// The error that a failure of the HTTP client is classified as: its kind by
/// the classification rule over the four signals that the client gives for
/// it, its detail the client's text for it.
pub open spec fn classified(err: reqwest::Error) -> (ErrorKind, Seq<char>) {
    (
        classify_kind(
            reqwest_is_timeout(err),
            reqwest_is_connect(err),
            reqwest_is_redirect(err),
            reqwest_is_request(err),
        ),
        kept_detail(
            classify_kind(
                reqwest_is_timeout(err),
                reqwest_is_connect(err),
                reqwest_is_redirect(err),
                reqwest_is_request(err),
            ),
            reqwest_text(err),
        ),
    )
}

impl TransportError {
    /// Classifies a failure of the HTTP client: the four signals are read
    /// from it and the classification rule decides.
    pub fn from_reqwest(err: &reqwest::Error) -> (out: TransportError)
        ensures
            out@ == classified(*err),
    {
        let failure = TransportFailure {
            is_timeout: err.is_timeout(),
            is_connect: err.is_connect(),
            is_redirect: err.is_redirect(),
            is_request: err.is_request(),
            message: reqwest_error_text(err),
        };
        classify(failure)
    }
}

/// `reqwest_middleware::Error`, the failure of the client with its
/// middleware stack.
#[verifier::external_type_specification]
#[verifier::external_body]
pub struct ExMiddlewareError(reqwest_middleware::Error);

/// What a `reqwest_middleware::Error` comes apart into: the client's own
/// failure, or the text of a middleware's failure.
pub uninterp spec fn middleware_parts(err: reqwest_middleware::Error) -> Result<
    reqwest::Error,
    Seq<char>,
>;

/// Tells the two variants of `reqwest_middleware::Error` apart: the client's
/// own failure is handed on as it is, a middleware's failure as the text that
/// its `Display` writes.
#[verifier::external_body]
fn split_middleware_error(err: reqwest_middleware::Error) -> (parts: Result<reqwest::Error, String>)
    ensures
        match parts {
            Ok(inner) => middleware_parts(err) == Ok::<reqwest::Error, Seq<char>>(inner),
            Err(text) => middleware_parts(err) == Err::<reqwest::Error, Seq<char>>(text@),
        },
{
    match err {
        reqwest_middleware::Error::Reqwest(inner) => Ok(inner),
        reqwest_middleware::Error::Middleware(inner) => Err(inner.to_string()),
    }
}

/// The error that the parts of a failure are classified as: the client's own
/// failure as the classification rule decides, a middleware's failure as
/// `Other` with its text.
pub open spec fn classified_parts(parts: Result<reqwest::Error, Seq<char>>) -> (
    ErrorKind,
    Seq<char>,
) {
    match parts {
        Ok(inner) => classified(inner),
        Err(text) => (ErrorKind::Other, text),
    }
}

impl TransportError {
    /// Classifies a failure of the client with its middleware stack: a
    /// middleware's own failure is `Other`, the client's failure is classified
    /// as [`TransportError::from_reqwest`] does.
    pub fn from_middleware(err: reqwest_middleware::Error) -> (out: TransportError)
        ensures
            out@ == classified_parts(middleware_parts(err)),
    {
        TransportError::from_middleware_parts(split_middleware_error(err))
    }

    /// Classifies what a failure of the client with its middleware stack has
    /// come apart into: the text of a middleware's own failure is `Other`
    /// with that text, and the client's failure is classified as
    /// [`TransportError::from_reqwest`] does.
    pub fn from_middleware_parts(parts: Result<reqwest::Error, String>) -> (out: TransportError)
        ensures
            out@ == classified_parts(
                match parts {
                    Ok(inner) => Ok(inner),
                    Err(text) => Err(text@),
                },
            ),
    {
        match parts {
            Ok(inner) => TransportError::from_reqwest(&inner),
            Err(text) => TransportError::Other(text),
        }
    }
}

/// Whatever the HTTP client reports, its failure is classified as one of the
/// six kinds that the classification rule produces.
pub proof fn client_failure_is_classified(err: reqwest::Error)
    ensures
        is_classified_kind(classified(err).0),
{
}

/// The class of exception under which an error crosses to the caller's
/// language.
#[derive(Clone, Copy, Debug, PartialEq, Eq, Structural)]
pub enum ExceptionClass {
    TimeoutError,
    ConnectionError,
    IOError,
    ValueError,
    RuntimeError,
}

/// An error as the caller's language sees it: a class and a message.
pub struct ForeignException {
    pub class: ExceptionClass,
    pub message: String,
}

/// The exception class of each kind of error: timeouts raise `TimeoutError`,
/// but a timeout while connecting is a `ConnectionError` like the other
/// failures to reach the peer; read and write failures are `IOError`;
/// protocol, URL and redirect failures are `ValueError`; the rest is
/// `RuntimeError`.
pub open spec fn exception_class(kind: ErrorKind) -> ExceptionClass {
    match kind {
        ErrorKind::RequestTimeout => ExceptionClass::TimeoutError,
        ErrorKind::ConnectTimeout => ExceptionClass::ConnectionError,
        ErrorKind::ReadTimeout => ExceptionClass::TimeoutError,
        ErrorKind::ConnectError => ExceptionClass::ConnectionError,
        ErrorKind::ReadError => ExceptionClass::IOError,
        ErrorKind::WriteError => ExceptionClass::IOError,
        ErrorKind::PoolTimeout => ExceptionClass::TimeoutError,
        ErrorKind::SSLError => ExceptionClass::ConnectionError,
        ErrorKind::ProxyError => ExceptionClass::ConnectionError,
        ErrorKind::LocalProtocolError => ExceptionClass::ValueError,
        ErrorKind::RemoteProtocolError => ExceptionClass::ValueError,
        ErrorKind::InvalidURL => ExceptionClass::ValueError,
        ErrorKind::TooManyRedirects => ExceptionClass::ValueError,
        ErrorKind::Other => ExceptionClass::RuntimeError,
    }
}

/// What an exception's message starts with, by kind of error.
pub open spec fn exception_prefix(kind: ErrorKind) -> Seq<char> {
    match kind {
        ErrorKind::RequestTimeout => "Request timeout: "@,
        ErrorKind::ConnectTimeout => "Connect timeout: "@,
        ErrorKind::ReadTimeout => "Read timeout: "@,
        ErrorKind::ConnectError => "Connect error: "@,
        ErrorKind::ReadError => "Read error: "@,
        ErrorKind::WriteError => "Write error: "@,
        ErrorKind::PoolTimeout => "Pool timeout: "@,
        ErrorKind::SSLError => "SSL error: "@,
        ErrorKind::ProxyError => "Proxy error: "@,
        ErrorKind::LocalProtocolError => "Local protocol error: "@,
        ErrorKind::RemoteProtocolError => "Remote protocol error: "@,
        ErrorKind::InvalidURL => "Invalid URL: "@,
        ErrorKind::TooManyRedirects => "Too many redirects"@,
        ErrorKind::Other => "HTTP error: "@,
    }
}

impl TransportError {
    /// The exception that stands for this error: its class by the error's
    /// kind, its message the prefix of that kind followed by the detail.
    pub fn to_exception(&self) -> (raised: ForeignException)
        ensures
            raised.class == exception_class(self@.0),
            raised.message@ == exception_prefix(self@.0) + self@.1,
    {
        let (class, prefix): (ExceptionClass, &str) = match self.kind() {
            ErrorKind::RequestTimeout => (ExceptionClass::TimeoutError, "Request timeout: "),
            ErrorKind::ConnectTimeout => (ExceptionClass::ConnectionError, "Connect timeout: "),
            ErrorKind::ReadTimeout => (ExceptionClass::TimeoutError, "Read timeout: "),
            ErrorKind::ConnectError => (ExceptionClass::ConnectionError, "Connect error: "),
            ErrorKind::ReadError => (ExceptionClass::IOError, "Read error: "),
            ErrorKind::WriteError => (ExceptionClass::IOError, "Write error: "),
            ErrorKind::PoolTimeout => (ExceptionClass::TimeoutError, "Pool timeout: "),
            ErrorKind::SSLError => (ExceptionClass::ConnectionError, "SSL error: "),
            ErrorKind::ProxyError => (ExceptionClass::ConnectionError, "Proxy error: "),
            ErrorKind::LocalProtocolError => (ExceptionClass::ValueError, "Local protocol error: "),
            ErrorKind::RemoteProtocolError => (
                ExceptionClass::ValueError,
                "Remote protocol error: ",
            ),
            ErrorKind::InvalidURL => (ExceptionClass::ValueError, "Invalid URL: "),
            ErrorKind::TooManyRedirects => (ExceptionClass::ValueError, "Too many redirects"),
            ErrorKind::Other => (ExceptionClass::RuntimeError, "HTTP error: "),
        };
        ForeignException { class, message: String::from_str(prefix).concat(self.detail()) }
    }
}

} // verus!
