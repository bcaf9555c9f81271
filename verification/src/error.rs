//! The ways in which a call can fail.

use vstd::prelude::*;

verus! {

/// What is wrong with the configuration of a call.
#[derive(Clone, Copy, Debug, PartialEq, Eq, Structural)]
pub enum ConfigurationFault {
    /// The network identifier is not one of the recognized ones.
    UnsupportedNetwork,
    /// The endpoint of the network is not a URL.
    MalformedEndpoint,
    /// The endpoint of the network is a URL that names no host.
    EndpointWithoutHost,
}

/// What is wrong with the body of a response.
#[derive(Clone, Copy, Debug, PartialEq, Eq, Structural)]
pub enum DecodingFault {
    /// The body is not UTF-8.
    InvalidUtf8,
    /// The body is not a JSON document.
    InvalidJson,
    /// The document is not a JSON-RPC response envelope.
    UnexpectedShape,
}

/// The code with which the transport rejects a request.
#[derive(Clone, Copy, Debug, PartialEq, Eq, Structural)]
pub enum RejectionCode {
    NoError,
    SysFatal,
    SysTransient,
    DestinationInvalid,
    CanisterReject,
    CanisterError,
    Unknown,
}

/// Why a call failed. Every failure ends the call: none is retried.
#[derive(Clone, Debug, PartialEq, Eq)]
#[allow(inconsistent_fields)]
pub enum EthRpcError {
    /// The network is not recognized, or its endpoint is malformed.
    Configuration(ConfigurationFault),
    /// The request could not be written as JSON.
    Encoding,
    /// The transport failed, with the code and message that it reported.
    Transport { code: RejectionCode, message: String },
    /// The body of the response could not be decoded.
    Decoding(DecodingFault),
    /// The server answered with an error object.
    Rpc { code: i64, message: String },
    /// The response holds neither a result nor an error.
    MalformedResponse,
}

/// An error as contracts speak of it: texts by their characters.
#[allow(inconsistent_fields)]
pub ghost enum ErrorView {
    Configuration(ConfigurationFault),
    Encoding,
    Transport { code: RejectionCode, message: Seq<char> },
    Decoding(DecodingFault),
    Rpc { code: i64, message: Seq<char> },
    MalformedResponse,
}

impl View for EthRpcError {
    type V = ErrorView;

    open spec fn view(&self) -> ErrorView {
        match *self {
            EthRpcError::Configuration(fault) => ErrorView::Configuration(fault),
            EthRpcError::Encoding => ErrorView::Encoding,
            EthRpcError::Transport { code, message } => ErrorView::Transport {
                code,
                message: message@,
            },
            EthRpcError::Decoding(fault) => ErrorView::Decoding(fault),
            EthRpcError::Rpc { code, message } => ErrorView::Rpc { code, message: message@ },
            EthRpcError::MalformedResponse => ErrorView::MalformedResponse,
        }
    }
}

/// The view of the outcome of a call: the characters of the result, or the
/// view of the error.
pub open spec fn outcome_view(outcome: Result<String, EthRpcError>) -> Result<
    Seq<char>,
    ErrorView,
> {
    match outcome {
        Ok(text) => Ok(text@),
        Err(error) => Err(error@),
    }
}

} // verus!
