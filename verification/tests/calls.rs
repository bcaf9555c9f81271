use std::cell::Cell;

use ic_eth::client::{call_eth, decode_body, finish_call, EthCallClient};
use ic_eth::error::{ConfigurationFault, DecodingFault, EthRpcError, RejectionCode};
use ic_eth::http::{
    build_request, HttpHeader, HttpMethod, HttpRequest, HttpResponse, TransformContext,
    TransportFailure, HTTP_CYCLES, MAX_RESPONSE_BYTES,
};
use ic_eth::request_id::RequestIdCounter;

fn response(body: &str) -> Result<HttpResponse, TransportFailure> {
    Ok(HttpResponse { status: 200, headers: Vec::new(), body: body.as_bytes().to_vec() })
}

fn call_with(answer: Result<HttpResponse, TransportFailure>) -> (Result<String, EthRpcError>, u32) {
    let sent = Cell::new(0u32);
    let mut client = EthCallClient::with_ids(RequestIdCounter::starting_at(7));
    let outcome = call_eth(&mut client, "mainnet", "0xabc".to_string(), vec![0x01], |_request| {
        sent.set(sent.get() + 1);
        answer
    });
    (outcome, sent.get())
}

#[test]
fn a_result_is_returned() {
    let (outcome, sent) =
        call_with(response("{\"id\":7,\"jsonrpc\":\"2.0\",\"result\":\"0xdeadbeef\",\"error\":null}"));
    assert_eq!(outcome, Ok("0xdeadbeef".to_string()));
    assert_eq!(sent, 1);
}

#[test]
fn an_error_object_fails_the_call_with_its_code_and_message() {
    let (outcome, sent) = call_with(response(
        "{\"id\":7,\"jsonrpc\":\"2.0\",\"result\":null,\"error\":{\"code\":-32000,\"message\":\"execution reverted\"}}",
    ));
    assert_eq!(
        outcome,
        Err(EthRpcError::Rpc { code: -32000, message: "execution reverted".to_string() })
    );
    assert_eq!(sent, 1);
}

#[test]
fn a_body_that_is_not_json_fails_the_call() {
    let (outcome, sent) = call_with(response("<html>502 Bad Gateway</html>"));
    assert_eq!(outcome, Err(EthRpcError::Decoding(DecodingFault::InvalidJson)));
    assert_eq!(sent, 1);
}

#[test]
fn a_body_that_is_not_utf8_fails_the_call() {
    let answer = Ok(HttpResponse { status: 200, headers: Vec::new(), body: vec![0x7b, 0xff, 0x7d] });
    let (outcome, sent) = call_with(answer);
    assert_eq!(outcome, Err(EthRpcError::Decoding(DecodingFault::InvalidUtf8)));
    assert_eq!(sent, 1);
}

#[test]
fn a_body_of_another_shape_fails_the_call() {
    let (outcome, _) = call_with(response("{\"id\":7,\"jsonrpc\":\"2.0\",\"result\":17}"));
    assert_eq!(outcome, Err(EthRpcError::Decoding(DecodingFault::UnexpectedShape)));
}

#[test]
fn an_envelope_without_result_or_error_is_malformed() {
    let (outcome, sent) =
        call_with(response("{\"id\":7,\"jsonrpc\":\"2.0\",\"result\":null,\"error\":null}"));
    assert_eq!(outcome, Err(EthRpcError::MalformedResponse));
    assert_eq!(sent, 1);
}

#[test]
fn an_envelope_with_result_and_error_fails_with_the_error() {
    let (outcome, _) = call_with(response(
        "{\"result\":\"0x01\",\"error\":{\"code\":3,\"message\":\"partial\"}}",
    ));
    assert_eq!(outcome, Err(EthRpcError::Rpc { code: 3, message: "partial".to_string() }));
}

#[test]
fn a_transport_failure_fails_the_call_without_a_retry() {
    let failure =
        TransportFailure { code: RejectionCode::SysTransient, message: "connection refused".to_string() };
    let (outcome, sent) = call_with(Err(failure));
    assert_eq!(
        outcome,
        Err(EthRpcError::Transport {
            code: RejectionCode::SysTransient,
            message: "connection refused".to_string()
        })
    );
    assert_eq!(sent, 1);
}

#[test]
fn the_status_of_a_response_does_not_matter() {
    let answer = Ok(HttpResponse {
        status: 500,
        headers: vec![HttpHeader { name: "Content-Type".to_string(), value: "text/plain".to_string() }],
        body: "{\"result\":\"0x\"}".as_bytes().to_vec(),
    });
    assert_eq!(finish_call(answer), Ok("0x".to_string()));
}

#[test]
fn a_body_is_decoded_on_its_own() {
    assert_eq!(decode_body("{\"result\":\"0x2a\"}".as_bytes()), Ok("0x2a".to_string()));
    assert_eq!(decode_body(&[0xc0]), Err(EthRpcError::Decoding(DecodingFault::InvalidUtf8)));
    assert_eq!(decode_body(&[]), Err(EthRpcError::Decoding(DecodingFault::InvalidJson)));
}

#[test]
fn an_unrecognized_network_fails_before_anything_is_sent() {
    let sent = Cell::new(0u32);
    let mut client = EthCallClient::new();
    let outcome = call_eth(&mut client, "ropsten", "0xabc".to_string(), vec![], |_request| {
        sent.set(sent.get() + 1);
        response("{\"result\":\"0x\"}")
    });
    assert_eq!(outcome, Err(EthRpcError::Configuration(ConfigurationFault::UnsupportedNetwork)));
    assert_eq!(sent.get(), 0);
    assert_eq!(client.peek_id(), 0);
}

#[test]
fn the_request_of_a_call_is_the_one_that_reaches_the_transport() {
    let seen: Cell<Option<HttpRequest>> = Cell::new(None);
    let mut client = EthCallClient::with_ids(RequestIdCounter::starting_at(7));
    let outcome = call_eth(&mut client, "sepolia", "0xabc".to_string(), vec![0xde, 0xad], |request| {
        seen.set(Some(request));
        response("{\"result\":\"0x01\"}")
    });
    assert_eq!(outcome, Ok("0x01".to_string()));
    let request = seen.take().unwrap();
    assert_eq!(request.url, "https://rpc.sepolia.org");
    assert_eq!(request.method, HttpMethod::POST);
    assert_eq!(request.max_response_bytes, Some(2048));
    assert_eq!(request.cycles, 100_000_000);
    assert_eq!(
        request.headers,
        vec![
            HttpHeader { name: "Content-Type".to_string(), value: "application/json".to_string() },
            HttpHeader { name: "Host".to_string(), value: "rpc.sepolia.org".to_string() },
        ]
    );
    assert_eq!(
        request.body,
        Some(
            "{\"id\":7,\"jsonrpc\":\"2.0\",\"method\":\"eth_call\",\"params\":[{\"to\":\"0xabc\",\"data\":\"0xdead\"},\"latest\"]}"
                .as_bytes()
                .to_vec()
        )
    );
    assert_eq!(
        request.transform,
        Some(TransformContext { function: "transform".to_string(), context: Vec::new() })
    );
}

#[test]
fn each_network_is_addressed_by_the_host_of_its_endpoint() {
    for (network, url, host) in [
        ("mainnet", "https://cloudflare-eth.com/v1/mainnet", "cloudflare-eth.com"),
        ("goerli", "https://ethereum-goerli.publicnode.com", "ethereum-goerli.publicnode.com"),
        ("sepolia", "https://rpc.sepolia.org", "rpc.sepolia.org"),
    ] {
        let mut client = EthCallClient::new();
        let request = client.begin_call(network, "0xabc", &[]).unwrap();
        assert_eq!(request.url, url);
        assert_eq!(request.headers[1].name, "Host");
        assert_eq!(request.headers[1].value, host);
    }
}

#[test]
fn sequential_calls_use_increasing_identifiers() {
    let mut client = EthCallClient::new();
    let first = client.begin_call("mainnet", "0xabc", &[]).unwrap();
    let second = client.begin_call("mainnet", "0xabc", &[]).unwrap();
    let first_body = String::from_utf8(first.body.unwrap()).unwrap();
    let second_body = String::from_utf8(second.body.unwrap()).unwrap();
    assert!(first_body.starts_with("{\"id\":0,"));
    assert!(second_body.starts_with("{\"id\":1,"));
    assert_eq!(client.peek_id(), 2);
}

#[test]
fn identifiers_wrap_around_between_calls() {
    let mut client = EthCallClient::with_ids(RequestIdCounter::starting_at(u64::MAX));
    let last = client.begin_call("goerli", "0xabc", &[]).unwrap();
    let next = client.begin_call("goerli", "0xabc", &[]).unwrap();
    assert!(String::from_utf8(last.body.unwrap()).unwrap().starts_with("{\"id\":18446744073709551615,"));
    assert!(String::from_utf8(next.body.unwrap()).unwrap().starts_with("{\"id\":0,"));
}

#[test]
fn a_failed_call_still_uses_up_its_identifier() {
    let mut client = EthCallClient::new();
    let outcome = call_eth(&mut client, "mainnet", "0xabc".to_string(), vec![], |_request| {
        Err(TransportFailure { code: RejectionCode::SysFatal, message: String::new() })
    });
    assert!(matches!(outcome, Err(EthRpcError::Transport { .. })));
    assert_eq!(client.peek_id(), 1);
}

#[test]
fn the_default_client_starts_at_zero() {
    assert_eq!(EthCallClient::default().peek_id(), 0);
}

#[test]
fn a_request_is_built_from_its_parts() {
    let request = build_request("https://example.org/rpc", "example.org", "{}");
    assert_eq!(request.url, "https://example.org/rpc");
    assert_eq!(request.method, HttpMethod::POST);
    assert_eq!(request.max_response_bytes, Some(MAX_RESPONSE_BYTES));
    assert_eq!(request.cycles, HTTP_CYCLES);
    assert_eq!(request.body, Some(vec![0x7b, 0x7d]));
    assert_eq!(request.headers.len(), 2);
    assert_eq!(request.headers[0].name, "Content-Type");
    assert_eq!(request.headers[0].value, "application/json");
    assert_eq!(request.headers[1].value, "example.org");
}

#[test]
fn the_limits_are_the_fixed_ones() {
    assert_eq!(MAX_RESPONSE_BYTES, 2048);
    assert_eq!(HTTP_CYCLES, 100_000_000);
}

#[test]
fn text_beyond_ascii_is_decoded_from_utf8() {
    let body = "{\"result\":\"caf\u{e9} \u{1f600}\"}";
    assert_eq!(decode_body(body.as_bytes()), Ok("caf\u{e9} \u{1f600}".to_string()));
}

#[test]
fn a_truncated_utf8_sequence_is_refused() {
    let mut body = "{\"result\":\"caf".as_bytes().to_vec();
    body.push(0xc3);
    body.extend_from_slice("\"}".as_bytes());
    assert_eq!(decode_body(&body), Err(EthRpcError::Decoding(DecodingFault::InvalidUtf8)));
    assert_eq!(
        decode_body(&[0xed, 0xa0, 0x80]),
        Err(EthRpcError::Decoding(DecodingFault::InvalidUtf8))
    );
}

#[test]
fn the_main_items_are_reachable_from_the_root() {
    let mut ids = ic_eth::RequestIdCounter::new();
    assert_eq!(ic_eth::next_id(&mut ids), 0);
    assert_eq!(ic_eth::get_rpc_endpoint("sepolia"), Ok("https://rpc.sepolia.org"));
    let mut client = ic_eth::EthCallClient::new();
    let outcome = ic_eth::call_eth(&mut client, "sepolia", "0xabc".to_string(), vec![], |_request| {
        response("{\"result\":\"0x\"}")
    });
    assert_eq!(outcome, Ok("0x".to_string()));
}
