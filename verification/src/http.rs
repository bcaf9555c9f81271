//! The HTTP exchange of a call, as plain values: the request that goes to
//! the transport, and what the transport answers.

use vstd::prelude::*;
use vstd::string::*;
use vstd::utf8::*;

use crate::error::RejectionCode;

verus! {

/// The cost budget declared for each request.
pub const HTTP_CYCLES: u128 = 100_000_000;

/// The ceiling on the size of a response, in bytes.
pub const MAX_RESPONSE_BYTES: u64 = 2048;

/// One header of a request or a response.
#[derive(Clone, Debug, PartialEq, Eq)]
pub struct HttpHeader {
    pub name: String,
    pub value: String,
}

/// The method of a request.
#[derive(Clone, Copy, Debug, PartialEq, Eq, Structural)]
pub enum HttpMethod {
    GET,
    POST,
    HEAD,
}

/// The hook with which the host platform normalizes a response: the name of
/// a function of the caller, and a context that is handed to it.
#[derive(Clone, Debug, PartialEq, Eq)]
pub struct TransformContext {
    pub function: String,
    pub context: Vec<u8>,
}

/// A request, as the transport takes it.
#[derive(Clone, Debug, PartialEq, Eq)]
pub struct HttpRequest {
    pub url: String,
    pub max_response_bytes: Option<u64>,
    pub method: HttpMethod,
    pub headers: Vec<HttpHeader>,
    pub body: Option<Vec<u8>>,
    pub transform: Option<TransformContext>,
    pub cycles: u128,
}

/// A response, as the transport gives it.
#[derive(Clone, Debug, PartialEq, Eq)]
pub struct HttpResponse {
    pub status: u64,
    pub headers: Vec<HttpHeader>,
    pub body: Vec<u8>,
}

/// A failure of the transport itself: its code and its message.
#[derive(Clone, Debug, PartialEq, Eq)]
pub struct TransportFailure {
    pub code: RejectionCode,
    pub message: String,
}

/// An [`HttpHeader`] as contracts speak of it.
pub ghost struct HttpHeaderView {
    pub name: Seq<char>,
    pub value: Seq<char>,
}

/// A [`TransformContext`] as contracts speak of it.
pub ghost struct TransformContextView {
    pub function: Seq<char>,
    pub context: Seq<u8>,
}

/// An [`HttpRequest`] as contracts speak of it.
pub ghost struct HttpRequestView {
    pub url: Seq<char>,
    pub max_response_bytes: Option<u64>,
    pub method: HttpMethod,
    pub headers: Seq<HttpHeaderView>,
    pub body: Option<Seq<u8>>,
    pub transform: Option<TransformContextView>,
    pub cycles: u128,
}

impl View for HttpHeader {
    type V = HttpHeaderView;

    open spec fn view(&self) -> HttpHeaderView {
        HttpHeaderView { name: self.name@, value: self.value@ }
    }
}

impl View for TransformContext {
    type V = TransformContextView;

    open spec fn view(&self) -> TransformContextView {
        TransformContextView { function: self.function@, context: self.context@ }
    }
}

impl View for HttpRequest {
    type V = HttpRequestView;

    open spec fn view(&self) -> HttpRequestView {
        HttpRequestView {
            url: self.url@,
            max_response_bytes: self.max_response_bytes,
            method: self.method,
            headers: self.headers@.map_values(|header: HttpHeader| header@),
            body: match self.body {
                Some(bytes) => Some(bytes@),
                None => None,
            },
            transform: match self.transform {
                Some(transform) => Some(transform@),
                None => None,
            },
            cycles: self.cycles,
        }
    }
}

/// What the transport answers, as contracts speak of it: the body of the
/// response, or the code and message of the failure.
pub open spec fn answer_view(answer: Result<HttpResponse, TransportFailure>) -> Result<
    Seq<u8>,
    (RejectionCode, Seq<char>),
> {
    match answer {
        Ok(response) => Ok(response.body@),
        Err(failure) => Err((failure.code, failure.message@)),
    }
}

/// The request of an `eth_call`: a `POST` of the JSON text `body` to `url`,
/// declared as JSON and addressed to `host`, with the response capped at
/// [`MAX_RESPONSE_BYTES`], the transform hook `transform` and a budget of
/// [`HTTP_CYCLES`].
pub open spec fn eth_call_request(url: Seq<char>, host: Seq<char>, body: Seq<char>) -> HttpRequestView {
    HttpRequestView {
        url,
        max_response_bytes: Some(MAX_RESPONSE_BYTES),
        method: HttpMethod::POST,
        headers: seq![
            HttpHeaderView { name: "Content-Type"@, value: "application/json"@ },
            HttpHeaderView { name: "Host"@, value: host },
        ],
        body: Some(encode_utf8(body)),
        transform: Some(TransformContextView { function: "transform"@, context: Seq::empty() }),
        cycles: HTTP_CYCLES,
    }
}

/// Puts the request of an `eth_call` together.
pub fn build_request(url: &str, host: &str, body: &str) -> (request: HttpRequest)
    ensures
        request@ == eth_call_request(url@, host@, body@),
{
    let mut headers: Vec<HttpHeader> = Vec::new();
    headers.push(
        HttpHeader {
            name: String::from_str("Content-Type"),
            value: String::from_str("application/json"),
        },
    );
    headers.push(HttpHeader { name: String::from_str("Host"), value: String::from_str(host) });
    let request = HttpRequest {
        url: String::from_str(url),
        max_response_bytes: Some(MAX_RESPONSE_BYTES),
        method: HttpMethod::POST,
        headers,
        body: Some(body.as_bytes_vec()),
        transform: Some(
            TransformContext { function: String::from_str("transform"), context: Vec::new() },
        ),
        cycles: HTTP_CYCLES,
    };
    proof {
        assert(request@.headers =~= eth_call_request(url@, host@, body@).headers);
    }
    request
}

/// What the URL parser finds for the host of a URL.
#[derive(Clone, Debug, PartialEq, Eq)]
pub enum HostLookup {
    /// The text is not an absolute URL.
    NotUrl,
    /// The URL names no host.
    NoHost,
    /// The host of the URL, as the parser writes it.
    Host(String),
}

/// A [`HostLookup`] as contracts speak of it.
pub ghost enum HostLookupView {
    NotUrl,
    NoHost,
    Host(Seq<char>),
}

impl View for HostLookup {
    type V = HostLookupView;

    open spec fn view(&self) -> HostLookupView {
        match *self {
            HostLookup::NotUrl => HostLookupView::NotUrl,
            HostLookup::NoHost => HostLookupView::NoHost,
            HostLookup::Host(host) => HostLookupView::Host(host@),
        }
    }
}

/// What the `url` crate finds for the host of `url`.
pub uninterp spec fn url_host(url: Seq<char>) -> HostLookupView;

/// Parses `url` and takes its host.
///
/// Trusted: this is `url::Url::parse`, then `Url::host_str`. The contract
/// only gives the outcome a name, [`url_host`].
#[verifier::external_body]
pub(crate) fn host_of_url(url: &str) -> (found: HostLookup)
    ensures
        found@ == url_host(url@),
{
    match url::Url::parse(url) {
        Err(_) => HostLookup::NotUrl,
        Ok(parsed) => match parsed.host_str() {
            None => HostLookup::NoHost,
            Some(host) => HostLookup::Host(host.to_string()),
        },
    }
}

} // verus!
