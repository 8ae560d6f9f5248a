//! The two transports: what each of them does before a request goes to the
//! network, and what it makes of the network's answer.
//!
//! The network itself is outside the library. A transport turns an abstract
//! request into a [`Dispatch`], which says what to send and how; the caller
//! sends it and hands back what came of it, step by step, and the transport
//! builds the response or the error.
use vstd::prelude::*;
use vstd::string::*;
use crate::client::ClientConfig;
use crate::errors::{ErrorKind, TransportError};
use crate::extensions::{Extensions, Scalar, TimeoutSetting};
use crate::native::{
    header_entries, is_method, parsed_url, HttpMethod, RequestUrl, SURE_HEADERS,
};
use reqwest::header::HeaderMap;
use crate::ordered_map::collect;
use crate::response::{AbstractResponse, BodyView, ResponseBody};
use crate::streaming::{
    coerced_body, extract_body_from_python, item_view, BodyInput, Bridge, ByteStream,
    StreamItem, SyncByteStream,
};
use crate::utils::{
    all_valid, coerced_pairs, create_response_object, extract_extensions, extract_headers,
    extract_method, extract_timeout_from_extensions, extract_url, header_items,
    header_translation_succeeds, is_streaming_requested, map_refused, map_takes_sure_headers,
    refusal_error, requested_timeout, translated_headers,
    response_head, streaming_requested, ExtensionsInput, HeaderInput,
};

verus! {

/// A request as the caller hands it over.
pub struct AbstractRequest {
    pub method: String,
    pub url: String,
    pub headers: HeaderInput,
    pub content: BodyInput,
    pub extensions: ExtensionsInput,
}

/// A request in native form: every part of it has been validated.
pub struct NativeRequest {
    pub method: HttpMethod,
    pub url: RequestUrl,
    pub headers: HeaderMap,
    pub body: Vec<u8>,
    pub extensions: Extensions,
}

/// The model of a [`NativeRequest`].
pub struct NativeView {
    pub method: Seq<char>,
    pub url: Seq<char>,
    pub headers: Seq<(Seq<char>, Seq<u8>)>,
    pub body: Seq<u8>,
    pub extensions: Seq<(Seq<char>, Scalar)>,
}

impl View for NativeRequest {
    type V = NativeView;

    open spec fn view(&self) -> NativeView {
        NativeView {
            method: self.method@,
            url: self.url@,
            headers: header_entries(self.headers),
            body: self.body@,
            extensions: self.extensions@,
        }
    }
}

/// The native request that an abstract request stands for, or the error of
/// the first part that is not valid. The parts are looked at in this order:
/// method, URL, headers, body. Extensions are always valid.
pub open spec fn native_request(request: AbstractRequest) -> Result<
    NativeView,
    (ErrorKind, Seq<char>),
> {
    if !is_method(request.method@) {
        Err((ErrorKind::LocalProtocolError, "Invalid HTTP method: "@ + request.method@))
    } else {
        match parsed_url(request.url@) {
            Err(why) => Err((ErrorKind::InvalidURL, why)),
            Ok(url) => match translated_headers(header_items(request.headers)) {
                Err(err) => Err(err),
                Ok(headers) => match coerced_body(request.content) {
                    Err(err) => Err(err),
                    Ok(body) => Ok(
                        NativeView {
                            method: request.method@,
                            url,
                            headers,
                            body,
                            extensions: collect(coerced_pairs(request.extensions)),
                        },
                    ),
                },
            },
        }
    }
}

/// Whether `err` may come of a request in place of its native form: the
/// error of its first part that is not valid, or, where method and URL are
/// valid, the refusal of the header map.
pub open spec fn is_request_error(request: AbstractRequest, err: (ErrorKind, Seq<char>)) -> bool {
    native_request(request) == Err::<NativeView, (ErrorKind, Seq<char>)>(err) || (is_method(
        request.method@,
    ) && parsed_url(request.url@) is Ok && map_refused(header_items(request.headers)) && err
        == refusal_error())
}

/// A request with no more than `SURE_HEADERS` header tuples is never refused
/// by the header map: its only error is that of its first part that is not
/// valid.
pub proof fn request_error_is_a_fault(request: AbstractRequest, err: (ErrorKind, Seq<char>))
    requires
        header_items(request.headers).len() <= SURE_HEADERS,
        is_request_error(request, err),
    ensures
        native_request(request) == Err::<NativeView, (ErrorKind, Seq<char>)>(err),
{
    map_takes_sure_headers(header_items(request.headers));
}

/// Translates an abstract request into a native one. The request comes out
/// in its native form wherever the header map takes its headers.
pub fn build_native_request(request: &AbstractRequest) -> (built: Result<
    NativeRequest,
    TransportError,
>)
    ensures
        match built {
            Ok(native) => native_request(*request) == Ok::<NativeView, (ErrorKind, Seq<char>)>(
                native@,
            ),
            Err(err) => is_request_error(*request, err@),
        },
{
    let method = match extract_method(request.method.as_str()) {
        Ok(method) => method,
        Err(err) => {
            return Err(err);
        },
    };
    let url = match extract_url(request.url.as_str()) {
        Ok(url) => url,
        Err(err) => {
            return Err(err);
        },
    };
    let headers = match extract_headers(&request.headers) {
        Ok(headers) => headers,
        Err(err) => {
            return Err(err);
        },
    };
    let extensions = extract_extensions(&request.extensions);
    let body = match extract_body_from_python(&request.content) {
        Ok(body) => body,
        Err(err) => {
            return Err(err);
        },
    };
    Ok(NativeRequest { method, url, headers, body, extensions })
}

/// A request is translated exactly when its method is a method, its URL
/// parses, no header has a fault and its body can be coerced to bytes.
pub proof fn native_request_succeeds(request: AbstractRequest)
    ensures
        native_request(request) is Ok <==> is_method(request.method@) && parsed_url(
            request.url@,
        ) is Ok && all_valid(header_items(request.headers)) && coerced_body(
            request.content,
        ) is Ok,
{
    header_translation_succeeds(header_items(request.headers));
}

/// A text that is no method makes the translation fail with a local protocol
/// error, whatever the rest of the request holds.
pub proof fn invalid_method_is_rejected(request: AbstractRequest)
    requires
        !is_method(request.method@),
    ensures
        native_request(request) is Err,
        native_request(request)->Err_0.0 == ErrorKind::LocalProtocolError,
{
}

/// A URL that does not parse makes the translation of a request with a valid
/// method fail with `InvalidURL` and the parser's reason.
pub proof fn invalid_url_is_rejected(request: AbstractRequest)
    requires
        is_method(request.method@),
        parsed_url(request.url@) is Err,
    ensures
        native_request(request) == Err::<NativeView, (ErrorKind, Seq<char>)>(
            (ErrorKind::InvalidURL, parsed_url(request.url@)->Err_0),
        ),
{
}

/// What the network is asked to do for one request.
pub struct Dispatch {
    /// What is sent.
    pub request: NativeRequest,
    /// The timeout of this request. Without one the client's own applies.
    pub timeout: Option<TimeoutSetting>,
    /// Whether the body of the response is to be streamed.
    pub streaming: bool,
}

/// Plans the dispatch of a native request: the timeout is overridden only
/// where the extensions ask for one that is greater than zero, and the
/// response is streamed only where they ask for it.
pub fn dispatch(request: NativeRequest) -> (plan: Dispatch)
    ensures
        plan.request == request,
        plan.timeout == requested_timeout(request.extensions@),
        plan.streaming == streaming_requested(request.extensions@),
{
    let timeout = extract_timeout_from_extensions(&request.extensions);
    let streaming = is_streaming_requested(&request.extensions);
    Dispatch { request, timeout, streaming }
}

/// The status and the headers of a response as they came from the network.
pub struct ResponseHead {
    pub status: u16,
    /// The headers, as the HTTP stack holds them.
    pub headers: HeaderMap,
}

/// A response whose head has arrived and whose body has yet to be read.
pub struct PendingResponse {
    pub head: ResponseHead,
    /// The extensions of the request, to be echoed.
    pub extensions: Extensions,
    /// Whether the response is to be handed back as a stream.
    pub streaming: bool,
}

/// What a transport does once the network has answered a dispatch.
pub enum Step {
    /// The body has to be read in full and handed over.
    ReadBody(PendingResponse),
    /// The request is done: this is its response or its error.
    Done(Result<AbstractResponse, TransportError>),
}

/// Whether `built` is the response made of the given parts, or the error of
/// its head.
pub open spec fn is_response_of(
    built: Result<AbstractResponse, TransportError>,
    head: ResponseHead,
    body: BodyView,
    extensions: Seq<(Seq<char>, Scalar)>,
) -> bool {
    match built {
        Ok(response) => response_head(head.status, header_entries(head.headers)) == Ok::<
            Seq<(Seq<char>, Seq<char>)>,
            (ErrorKind, Seq<char>),
        >(response@.headers) && response.status == head.status && response.wf() && response@.body
            == body && response@.extensions == extensions,
        Err(err) => response_head(head.status, header_entries(head.headers)) == Err::<
            Seq<(Seq<char>, Seq<char>)>,
            (ErrorKind, Seq<char>),
        >(err@),
    }
}

/// The part of handling a request that comes before the network: the request
/// is translated and its dispatch is planned.
fn prepare(request: &AbstractRequest) -> (planned: Result<Dispatch, TransportError>)
    ensures
        match planned {
            Ok(plan) => native_request(*request) == Ok::<NativeView, (ErrorKind, Seq<char>)>(
                plan.request@,
            ) && plan.timeout == requested_timeout(plan.request@.extensions) && plan.streaming
                == streaming_requested(plan.request@.extensions),
            Err(err) => is_request_error(*request, err@),
        },
{
    match build_native_request(request) {
        Ok(native) => Ok(dispatch(native)),
        Err(err) => Err(err),
    }
}

/// The response with a buffered body, or the error with which the reading of
/// the body ended.
fn buffered(pending: PendingResponse, body: StreamItem) -> (built: Result<
    AbstractResponse,
    TransportError,
>)
    ensures
        match body {
            Ok(bytes) => is_response_of(
                built,
                pending.head,
                BodyView::Content(bytes@),
                pending.extensions@,
            ),
            Err(err) => built is Err && built->Err_0@ == err@,
        },
{
    match body {
        Ok(bytes) => create_response_object(
            pending.head.status,
            &pending.head.headers,
            ResponseBody::Content(bytes),
            Some(pending.extensions),
        ),
        Err(err) => Err(err),
    }
}

/// The asynchronous transport. Its client is shared by the whole process and
/// is built from the default configuration.
pub struct AsyncTransport {
    config: ClientConfig,
}

impl AsyncTransport {
    /// The configuration of the shared client.
    pub closed spec fn settings(&self) -> ClientConfig {
        self.config
    }

    /// A transport over the shared client. It takes no arguments: only the
    /// defaults apply.
    pub fn new() -> (transport: AsyncTransport)
        ensures
            transport.settings().is_default(),
    {
        AsyncTransport { config: ClientConfig::default() }
    }

    /// The configuration of the shared client.
    pub fn config(&self) -> (config: &ClientConfig)
        ensures
            *config == self.settings(),
    {
        &self.config
    }

    /// Handles a request up to the network: the request is translated, and
    /// the dispatch says what to send, under which timeout, and whether the
    /// response is to be streamed.
    pub fn handle_async_request(&self, request: &AbstractRequest) -> (planned: Result<
        Dispatch,
        TransportError,
    >)
        ensures
            match planned {
                Ok(plan) => native_request(*request) == Ok::<NativeView, (ErrorKind, Seq<char>)>(
                    plan.request@,
                ) && plan.timeout == requested_timeout(plan.request@.extensions)
                    && plan.streaming == streaming_requested(plan.request@.extensions),
                Err(err) => is_request_error(*request, err@),
            },
    {
        prepare(request)
    }

    /// Takes what came of sending a dispatch. A failure is the request's
    /// error. A streamed response is handed back at once, with an open stream
    /// and no content; otherwise the body has to be read first.
    pub fn on_response(&self, plan: Dispatch, sent: Result<ResponseHead, TransportError>) -> (step:
        Step)
        ensures
            match sent {
                Err(err) => step matches Step::Done(Err(reported)) && reported@ == err@,
                Ok(head) => if plan.streaming {
                    step matches Step::Done(built) && is_response_of(
                        built,
                        head,
                        BodyView::Stream(Bridge::open()),
                        plan.request@.extensions,
                    )
                } else {
                    step matches Step::ReadBody(pending) && pending.head == head
                        && pending.extensions == plan.request.extensions && !pending.streaming
                },
            },
    {
        match sent {
            Err(err) => Step::Done(Err(err)),
            Ok(head) => {
                if plan.streaming {
                    Step::Done(
                        create_response_object(
                            head.status,
                            &head.headers,
                            ResponseBody::Stream(ByteStream::from_response()),
                            Some(plan.request.extensions),
                        ),
                    )
                } else {
                    Step::ReadBody(
                        PendingResponse {
                            head,
                            extensions: plan.request.extensions,
                            streaming: false,
                        },
                    )
                }
            },
        }
    }

    /// Takes the body of a response that is not streamed: the response
    /// carries it as content and no stream. A failure to read the body is the
    /// request's error.
    pub fn on_body(&self, pending: PendingResponse, body: StreamItem) -> (built: Result<
        AbstractResponse,
        TransportError,
    >)
        ensures
            match body {
                Ok(bytes) => is_response_of(
                    built,
                    pending.head,
                    BodyView::Content(bytes@),
                    pending.extensions@,
                ),
                Err(err) => built is Err && built->Err_0@ == err@,
            },
    {
        buffered(pending, body)
    }

    /// Closes the transport. Nothing is released: the client is shared by the
    /// process and is not owned by this transport.
    pub fn aclose(&self) {
    }
}

impl Default for AsyncTransport {
    fn default() -> (transport: AsyncTransport)
        ensures
            transport.settings().is_default(),
    {
        AsyncTransport::new()
    }
}

/// The blocking transport. It owns a client of its own, built from the
/// default configuration.
pub struct SyncTransport {
    config: ClientConfig,
}

impl SyncTransport {
    /// The configuration of the transport's client.
    pub closed spec fn settings(&self) -> ClientConfig {
        self.config
    }

    /// A transport with a client of its own. It takes no arguments: only the
    /// defaults apply.
    pub fn new() -> (transport: SyncTransport)
        ensures
            transport.settings().is_default(),
    {
        SyncTransport { config: ClientConfig::default() }
    }

    /// The configuration of the transport's client.
    pub fn config(&self) -> (config: &ClientConfig)
        ensures
            *config == self.settings(),
    {
        &self.config
    }

    /// Handles a request up to the network: the request is translated, and
    /// the dispatch says what to send, under which timeout, and whether the
    /// response is to be handed back as a stream.
    pub fn handle_request(&self, request: &AbstractRequest) -> (planned: Result<
        Dispatch,
        TransportError,
    >)
        ensures
            match planned {
                Ok(plan) => native_request(*request) == Ok::<NativeView, (ErrorKind, Seq<char>)>(
                    plan.request@,
                ) && plan.timeout == requested_timeout(plan.request@.extensions)
                    && plan.streaming == streaming_requested(plan.request@.extensions),
                Err(err) => is_request_error(*request, err@),
            },
    {
        prepare(request)
    }

    /// Takes what came of sending a dispatch. A failure is the request's
    /// error. Otherwise the body has to be read in full, whether the
    /// response is to be streamed or not.
    pub fn on_response(&self, plan: Dispatch, sent: Result<ResponseHead, TransportError>) -> (step:
        Step)
        ensures
            match sent {
                Err(err) => step matches Step::Done(Err(reported)) && reported@ == err@,
                Ok(head) => step matches Step::ReadBody(pending) && pending.head == head
                    && pending.extensions == plan.request.extensions && pending.streaming
                    == plan.streaming,
            },
    {
        match sent {
            Err(err) => Step::Done(Err(err)),
            Ok(head) => Step::ReadBody(
                PendingResponse {
                    head,
                    extensions: plan.request.extensions,
                    streaming: plan.streaming,
                },
            ),
        }
    }

    /// Takes what came of reading the body in full. A streamed response
    /// carries a stream that holds that one outcome, be it the body or the
    /// failure to read it, and no content. A response that is not streamed
    /// carries the body as content; a failure to read it is the request's
    /// error.
    pub fn on_body(&self, pending: PendingResponse, body: StreamItem) -> (built: Result<
        AbstractResponse,
        TransportError,
    >)
        ensures
            if pending.streaming {
                is_response_of(
                    built,
                    pending.head,
                    BodyView::SyncStream(seq![item_view(body)]),
                    pending.extensions@,
                )
            } else {
                match body {
                    Ok(bytes) => is_response_of(
                        built,
                        pending.head,
                        BodyView::Content(bytes@),
                        pending.extensions@,
                    ),
                    Err(err) => built is Err && built->Err_0@ == err@,
                }
            },
    {
        if pending.streaming {
            create_response_object(
                pending.head.status,
                &pending.head.headers,
                ResponseBody::SyncStream(SyncByteStream::from_response(body)),
                Some(pending.extensions),
            )
        } else {
            buffered(pending, body)
        }
    }

    /// Closes the transport. Nothing needs to be released.
    pub fn close(&self) {
    }
}

impl Default for SyncTransport {
    fn default() -> (transport: SyncTransport)
        ensures
            transport.settings().is_default(),
    {
        SyncTransport::new()
    }
}

} // verus!
