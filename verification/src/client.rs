//! One `eth_call`: the request that goes out, and what the answer means.

use vstd::prelude::*;
use vstd::utf8::*;

use crate::error::{ConfigurationFault, DecodingFault, EthRpcError, ErrorView, RejectionCode, outcome_view};
use crate::http::{
    HostLookup, HostLookupView, HttpRequest, HttpRequestView, HttpResponse, TransportFailure,
    answer_view, build_request, eth_call_request, host_of_url, url_host,
};
use crate::json::{decode_envelope, decoded_envelope, encode_request, encoded_request, envelope_outcome};
use crate::network::{endpoint_named, get_rpc_endpoint};
use crate::request_id::{RequestIdCounter, id_after, next_id};
use crate::text::utf8_text;

verus! {

/// The request of the call with identifier `id`, or why there is none.
///
/// The network is resolved first, then the body is written, then the host
/// is taken from the endpoint: the first of these that fails decides the
/// error.
pub open spec fn prepared_call(
    id: u64,
    network: Seq<char>,
    contract_address: Seq<char>,
    data: Seq<u8>,
) -> Result<HttpRequestView, ErrorView> {
    match endpoint_named(network) {
        None => Err(ErrorView::Configuration(ConfigurationFault::UnsupportedNetwork)),
        Some(url) => match encoded_request(id, contract_address, data) {
            None => Err(ErrorView::Encoding),
            Some(body) => match url_host(url) {
                HostLookupView::NotUrl => Err(
                    ErrorView::Configuration(ConfigurationFault::MalformedEndpoint),
                ),
                HostLookupView::NoHost => Err(
                    ErrorView::Configuration(ConfigurationFault::EndpointWithoutHost),
                ),
                HostLookupView::Host(host) => Ok(eth_call_request(url, host, body)),
            },
        },
    }
}

/// What a call returns for the answer of the transport.
///
/// A failure of the transport is passed on with its code and message. The
/// body of a response is decoded as UTF-8 and then as the JSON envelope; an
/// error object in the envelope wins over a result, and an envelope with
/// neither is malformed.
pub open spec fn call_outcome(answer: Result<Seq<u8>, (RejectionCode, Seq<char>)>) -> Result<
    Seq<char>,
    ErrorView,
> {
    match answer {
        Err((code, message)) => Err(ErrorView::Transport { code, message }),
        Ok(body) => if !valid_utf8(body) {
            Err(ErrorView::Decoding(DecodingFault::InvalidUtf8))
        } else {
            match decoded_envelope(decode_utf8(body)) {
                Err(fault) => Err(ErrorView::Decoding(fault)),
                Ok(envelope) => envelope_outcome(envelope),
            }
        },
    }
}

/// The view of a request or of the reason why there is none.
pub open spec fn request_view(request: Result<HttpRequest, EthRpcError>) -> Result<
    HttpRequestView,
    ErrorView,
> {
    match request {
        Ok(request) => Ok(request@),
        Err(error) => Err(error@),
    }
}

/// A client for `eth_call`. It owns the source of request identifiers, and
/// holds nothing else from one call to the next.
#[derive(Debug)]
pub struct EthCallClient {
    ids: RequestIdCounter,
}

impl EthCallClient {
    /// The identifier of the next request.
    pub closed spec fn upcoming_id(self) -> u64 {
        self.ids.upcoming()
    }

    /// A client whose first request has the identifier zero.
    pub fn new() -> (client: Self)
        ensures
            client.upcoming_id() == 0,
    {
        EthCallClient { ids: RequestIdCounter::new() }
    }

    /// A client that takes its identifiers from `ids`.
    pub fn with_ids(ids: RequestIdCounter) -> (client: Self)
        ensures
            client.upcoming_id() == ids.upcoming(),
    {
        EthCallClient { ids }
    }

    /// The identifier of the next request.
    pub fn peek_id(&self) -> (id: u64)
        ensures
            id == self.upcoming_id(),
    {
        self.ids.peek()
    }

    /// Builds the request for a call of `contract_address` with `data` on
    /// `network`.
    ///
    /// The call uses up one identifier, unless the network is not
    /// recognized: then it fails before one is allocated.
    pub fn begin_call(&mut self, network: &str, contract_address: &str, data: &[u8]) -> (request:
        Result<HttpRequest, EthRpcError>)
        ensures
            request_view(request) == prepared_call(
                old(self).upcoming_id(),
                network@,
                contract_address@,
                data@,
            ),
            final(self).upcoming_id() == if endpoint_named(network@) is Some {
                id_after(old(self).upcoming_id(), 1)
            } else {
                old(self).upcoming_id()
            },
    {
        let url = match get_rpc_endpoint(network) {
            Ok(url) => url,
            Err(error) => {
                return Err(error);
            },
        };
        let id = next_id(&mut self.ids);
        let body = match encode_request(id, contract_address, data) {
            Ok(body) => body,
            Err(error) => {
                return Err(error);
            },
        };
        match host_of_url(url) {
            HostLookup::NotUrl => Err(
                EthRpcError::Configuration(ConfigurationFault::MalformedEndpoint),
            ),
            HostLookup::NoHost => Err(
                EthRpcError::Configuration(ConfigurationFault::EndpointWithoutHost),
            ),
            HostLookup::Host(host) => Ok(build_request(url, host.as_str(), body.as_str())),
        }
    }
}

impl Default for EthCallClient {
    fn default() -> (client: Self)
        ensures
            client.upcoming_id() == 0,
    {
        EthCallClient::new()
    }
}

/// Decodes the body of a response into the result of the call.
pub fn decode_body(body: &[u8]) -> (outcome: Result<String, EthRpcError>)
    ensures
        outcome_view(outcome) == call_outcome(Ok(body@)),
{
    let text = match utf8_text(body) {
        Some(text) => text,
        None => {
            return Err(EthRpcError::Decoding(DecodingFault::InvalidUtf8));
        },
    };
    match decode_envelope(text) {
        Ok(envelope) => envelope.into_outcome(),
        Err(fault) => Err(EthRpcError::Decoding(fault)),
    }
}

/// Turns the answer of the transport into the result of the call. Every
/// failure ends the call: nothing is sent again.
pub fn finish_call(answer: Result<HttpResponse, TransportFailure>) -> (outcome: Result<
    String,
    EthRpcError,
>)
    ensures
        outcome_view(outcome) == call_outcome(answer_view(answer)),
{
    match answer {
        Err(failure) => Err(
            EthRpcError::Transport { code: failure.code, message: failure.message },
        ),
        Ok(response) => decode_body(response.body.as_slice()),
    }
}

/// Calls an Ethereum smart contract: resolves `network`, builds the request
/// for `contract_address` and `data`, hands it to `transport` once, and
/// decodes what comes back.
///
/// When no request can be built, the error says why and the transport is not
/// asked. Otherwise the result is what [`call_outcome`] gives for the answer
/// of the transport to that request.
pub fn call_eth<T>(
    client: &mut EthCallClient,
    network: &str,
    contract_address: String,
    data: Vec<u8>,
    transport: T,
) -> (outcome: Result<String, EthRpcError>) where
    T: FnOnce(HttpRequest) -> Result<HttpResponse, TransportFailure>,

    requires
        forall|request: HttpRequest| transport.requires((request,)),
    ensures
        final(client).upcoming_id() == if endpoint_named(network@) is Some {
            id_after(old(client).upcoming_id(), 1)
        } else {
            old(client).upcoming_id()
        },
        match prepared_call(old(client).upcoming_id(), network@, contract_address@, data@) {
            Err(error) => outcome_view(outcome) == Err::<Seq<char>, ErrorView>(error),
            Ok(prepared) => exists|request: HttpRequest, answer: Result<HttpResponse, TransportFailure>|
                request@ == prepared && #[trigger] transport.ensures((request,), answer)
                    && outcome_view(outcome) == call_outcome(answer_view(answer)),
        },
{
    let request = match client.begin_call(network, contract_address.as_str(), data.as_slice()) {
        Ok(request) => request,
        Err(error) => {
            return Err(error);
        },
    };
    let ghost sent = request;
    let answer = transport(request);
    let ghost received = answer;
    let outcome = finish_call(answer);
    proof {
        assert(transport.ensures((sent,), received));
    }
    outcome
}

} // verus!
