//! The JSON of the protocol: the text of a request, and what the text of a
//! response holds.

use vstd::prelude::*;
use vstd::string::*;

use crate::error::{DecodingFault, EthRpcError, ErrorView};
use crate::hex::{hex_encoding, to_hex};

verus! {

#[verifier::external_type_specification]
#[verifier::external_body]
pub struct ExJsonError(serde_json::Error);

/// The JSON string literal for `text`, quotes included, as `serde_json`
/// writes it; `None` where it writes none.
pub uninterp spec fn json_string_literal(text: Seq<char>) -> Option<Seq<char>>;

/// Writes `text` as a JSON string literal.
///
/// Trusted: this is `serde_json::to_string` on a `str`. The contract only
/// gives its outcome a name, [`json_string_literal`]: the literal, or that
/// there is none.
#[verifier::external_body]
fn string_literal(text: &str) -> (literal: Result<String, serde_json::Error>)
    ensures
        match literal {
            Ok(quoted) => json_string_literal(text@) == Some(quoted@),
            Err(_) => json_string_literal(text@) is None,
        },
{
    serde_json::to_string(text)
}

/// The decimal digit for `value`, for `0 <= value < 10`.
pub open spec fn decimal_digit(value: int) -> char {
    if value == 0 {
        '0'
    } else if value == 1 {
        '1'
    } else if value == 2 {
        '2'
    } else if value == 3 {
        '3'
    } else if value == 4 {
        '4'
    } else if value == 5 {
        '5'
    } else if value == 6 {
        '6'
    } else if value == 7 {
        '7'
    } else if value == 8 {
        '8'
    } else {
        '9'
    }
}

/// The decimal digits of `n`, without leading zeros.
pub open spec fn decimal_digits(n: nat) -> Seq<char>
    decreases n,
{
    if n < 10 {
        seq![decimal_digit(n as int)]
    } else {
        decimal_digits(n / 10).push(decimal_digit(n as int % 10))
    }
}

/// The text of the request with identifier `id`, given the JSON literals of
/// the contract address and of the call data.
pub open spec fn request_text(id: u64, to_literal: Seq<char>, data_literal: Seq<char>) -> Seq<
    char,
> {
    "{\"id\":"@ + decimal_digits(id as nat)
        + ",\"jsonrpc\":\"2.0\",\"method\":\"eth_call\",\"params\":[{\"to\":"@ + to_literal
        + ",\"data\":"@ + data_literal + "},\"latest\"]}"@
}

/// The text of the request with identifier `id` that calls
/// `contract_address` with `data`, if both strings can be written as JSON.
pub open spec fn encoded_request(id: u64, contract_address: Seq<char>, data: Seq<u8>) -> Option<
    Seq<char>,
> {
    match (json_string_literal(contract_address), json_string_literal(hex_encoding(data))) {
        (Some(to_literal), Some(data_literal)) => Some(request_text(id, to_literal, data_literal)),
        _ => None,
    }
}

fn decimal_digit_text(value: u64) -> (text: &'static str)
    requires
        value < 10,
    ensures
        text@ == seq![decimal_digit(value as int)],
{
    let digits: &'static str = "0123456789";
    proof {
        reveal_strlit("0123456789");
        assert(is_ascii(digits));
    }
    let at: usize = value as usize;
    let text = digits.substring_ascii(at, at + 1);
    assert(text@ =~= seq![decimal_digit(value as int)]);
    text
}

/// Writes `n` in decimal digits, without leading zeros.
pub fn decimal_text(n: u64) -> (text: String)
    ensures
        text@ == decimal_digits(n as nat),
    decreases n,
{
    if n < 10 {
        String::from_str(decimal_digit_text(n))
    } else {
        let mut text = decimal_text(n / 10);
        text.append(decimal_digit_text(n % 10));
        assert(text@ =~= decimal_digits(n as nat));
        text
    }
}

/// Puts the text of a request together from its identifier and the JSON
/// literals of the contract address and of the call data.
pub fn frame_request(id: u64, to_literal: &str, data_literal: &str) -> (text: String)
    ensures
        text@ == request_text(id, to_literal@, data_literal@),
{
    let mut text = String::from_str("{\"id\":");
    let digits = decimal_text(id);
    text.append(digits.as_str());
    text.append(",\"jsonrpc\":\"2.0\",\"method\":\"eth_call\",\"params\":[{\"to\":");
    text.append(to_literal);
    text.append(",\"data\":");
    text.append(data_literal);
    text.append("},\"latest\"]}");
    assert(text@ =~= request_text(id, to_literal@, data_literal@));
    text
}

/// Writes the JSON-RPC request with identifier `id` for an `eth_call` to
/// `contract_address` with `data`, at the block `latest`.
///
/// The address is passed through as it is; the data is written in
/// hexadecimal. The call fails, with [`EthRpcError::Encoding`], exactly when
/// one of the two strings cannot be written as JSON.
pub fn encode_request(id: u64, contract_address: &str, data: &[u8]) -> (text: Result<
    String,
    EthRpcError,
>)
    ensures
        match text {
            Ok(body) => encoded_request(id, contract_address@, data@) == Some(body@),
            Err(error) => encoded_request(id, contract_address@, data@) is None && error@
                == ErrorView::Encoding,
        },
{
    let hex = to_hex(data);
    let to_literal = match string_literal(contract_address) {
        Ok(literal) => literal,
        Err(_) => {
            return Err(EthRpcError::Encoding);
        },
    };
    let data_literal = match string_literal(hex.as_str()) {
        Ok(literal) => literal,
        Err(_) => {
            return Err(EthRpcError::Encoding);
        },
    };
    Ok(frame_request(id, to_literal.as_str(), data_literal.as_str()))
}

/// What a JSON document holds at one place.
#[derive(Clone, Debug, PartialEq, Eq)]
pub enum JsonProbe {
    /// The text is not a JSON document.
    NotJson,
    /// The document holds nothing at that place.
    Absent,
    Null,
    Bool(bool),
    /// A number, with its value where it is an integer that fits `i64`.
    Number(Option<i64>),
    Text(String),
    Array,
    Object,
}

/// A [`JsonProbe`] as contracts speak of it: text by its characters.
pub ghost enum JsonProbeView {
    NotJson,
    Absent,
    Null,
    Bool(bool),
    Number(Option<i64>),
    Text(Seq<char>),
    Array,
    Object,
}

impl View for JsonProbe {
    type V = JsonProbeView;

    open spec fn view(&self) -> JsonProbeView {
        match *self {
            JsonProbe::NotJson => JsonProbeView::NotJson,
            JsonProbe::Absent => JsonProbeView::Absent,
            JsonProbe::Null => JsonProbeView::Null,
            JsonProbe::Bool(b) => JsonProbeView::Bool(b),
            JsonProbe::Number(n) => JsonProbeView::Number(n),
            JsonProbe::Text(text) => JsonProbeView::Text(text@),
            JsonProbe::Array => JsonProbeView::Array,
            JsonProbe::Object => JsonProbeView::Object,
        }
    }
}

/// What `serde_json` finds in the document `text` at the JSON Pointer
/// `pointer`.
pub uninterp spec fn json_probe(text: Seq<char>, pointer: Seq<char>) -> JsonProbeView;

/// Parses `text` as a JSON document and looks up the JSON Pointer `pointer`
/// in it.
///
/// Trusted: this is `serde_json::from_str` to a `serde_json::Value`, then
/// `Value::pointer`, and for a number `Number::as_i64`. The contract only
/// gives the outcome a name, [`json_probe`].
#[verifier::external_body]
fn probe(text: &str, pointer: &str) -> (found: JsonProbe)
    ensures
        found@ == json_probe(text@, pointer@),
{
    match serde_json::from_str::<serde_json::Value>(text) {
        Err(_) => JsonProbe::NotJson,
        Ok(root) => match root.pointer(pointer) {
            None => JsonProbe::Absent,
            Some(serde_json::Value::Null) => JsonProbe::Null,
            Some(serde_json::Value::Bool(b)) => JsonProbe::Bool(*b),
            Some(serde_json::Value::Number(n)) => JsonProbe::Number(n.as_i64()),
            Some(serde_json::Value::String(s)) => JsonProbe::Text(s.clone()),
            Some(serde_json::Value::Array(_)) => JsonProbe::Array,
            Some(serde_json::Value::Object(_)) => JsonProbe::Object,
        },
    }
}

/// The error object of a response: a numeric code and a message.
#[derive(Clone, Debug, PartialEq, Eq)]
pub struct JsonRpcError {
    pub code: i64,
    pub message: String,
}

/// The envelope of a response. A well-behaved server fills in exactly one
/// of the two.
#[derive(Clone, Debug, PartialEq, Eq)]
pub struct JsonRpcResult {
    pub result: Option<String>,
    pub error: Option<JsonRpcError>,
}

/// A [`JsonRpcError`] as contracts speak of it.
pub ghost struct JsonRpcErrorView {
    pub code: i64,
    pub message: Seq<char>,
}

/// A [`JsonRpcResult`] as contracts speak of it.
pub ghost struct JsonRpcResultView {
    pub result: Option<Seq<char>>,
    pub error: Option<JsonRpcErrorView>,
}

impl View for JsonRpcError {
    type V = JsonRpcErrorView;

    open spec fn view(&self) -> JsonRpcErrorView {
        JsonRpcErrorView { code: self.code, message: self.message@ }
    }
}

impl View for JsonRpcResult {
    type V = JsonRpcResultView;

    open spec fn view(&self) -> JsonRpcResultView {
        JsonRpcResultView {
            result: match self.result {
                Some(text) => Some(text@),
                None => None,
            },
            error: match self.error {
                Some(error) => Some(error@),
                None => None,
            },
        }
    }
}

/// The member `result` of an envelope: it may be missing or `null`, which
/// both stand for no result, or else it must be a string.
pub open spec fn result_member(found: JsonProbeView) -> Option<Option<Seq<char>>> {
    match found {
        JsonProbeView::Absent => Some(None),
        JsonProbeView::Null => Some(None),
        JsonProbeView::Text(text) => Some(Some(text)),
        _ => None,
    }
}

/// The member `error` of an envelope: it may be missing or `null`, which
/// both stand for no error, or else it must be an object with an integer
/// `code` and a string `message`.
pub open spec fn error_member(
    found: JsonProbeView,
    code: JsonProbeView,
    message: JsonProbeView,
) -> Option<Option<JsonRpcErrorView>> {
    match found {
        JsonProbeView::Absent => Some(None),
        JsonProbeView::Null => Some(None),
        JsonProbeView::Object => match (code, message) {
            (JsonProbeView::Number(Some(code)), JsonProbeView::Text(message)) => Some(
                Some(JsonRpcErrorView { code, message }),
            ),
            _ => None,
        },
        _ => None,
    }
}

/// The envelope that a document holds, given what stands at its root, at
/// `/result`, at `/error`, at `/error/code` and at `/error/message`.
pub open spec fn envelope_of(
    root: JsonProbeView,
    result: JsonProbeView,
    error: JsonProbeView,
    code: JsonProbeView,
    message: JsonProbeView,
) -> Result<JsonRpcResultView, DecodingFault> {
    if root is NotJson {
        Err(DecodingFault::InvalidJson)
    } else if !(root is Object) {
        Err(DecodingFault::UnexpectedShape)
    } else {
        match (result_member(result), error_member(error, code, message)) {
            (Some(result), Some(error)) => Ok(JsonRpcResultView { result, error }),
            _ => Err(DecodingFault::UnexpectedShape),
        }
    }
}

/// The envelope that the text of a response holds.
pub open spec fn decoded_envelope(text: Seq<char>) -> Result<JsonRpcResultView, DecodingFault> {
    envelope_of(
        json_probe(text, ""@),
        json_probe(text, "/result"@),
        json_probe(text, "/error"@),
        json_probe(text, "/error/code"@),
        json_probe(text, "/error/message"@),
    )
}

/// What a call returns for an envelope: the error object wins, then the
/// result; an envelope with neither is malformed.
pub open spec fn envelope_outcome(envelope: JsonRpcResultView) -> Result<Seq<char>, ErrorView> {
    match envelope.error {
        Some(error) => Err(ErrorView::Rpc { code: error.code, message: error.message }),
        None => match envelope.result {
            Some(text) => Ok(text),
            None => Err(ErrorView::MalformedResponse),
        },
    }
}

/// The view of an envelope or of the reason why there is none.
pub open spec fn envelope_view(envelope: Result<JsonRpcResult, DecodingFault>) -> Result<
    JsonRpcResultView,
    DecodingFault,
> {
    match envelope {
        Ok(envelope) => Ok(envelope@),
        Err(fault) => Err(fault),
    }
}

/// Reads the envelope of a response from what its document holds at the
/// root, at `/result`, at `/error`, at `/error/code` and at
/// `/error/message`.
///
/// The document must be an object. Its `result` may be missing, `null` or a
/// string; its `error` may be missing, `null` or an object with an integer
/// `code` and a string `message`. Other members are ignored.
pub fn read_envelope(
    root: JsonProbe,
    result: JsonProbe,
    error: JsonProbe,
    code: JsonProbe,
    message: JsonProbe,
) -> (envelope: Result<JsonRpcResult, DecodingFault>)
    ensures
        envelope_view(envelope) == envelope_of(root@, result@, error@, code@, message@),
{
    match root {
        JsonProbe::NotJson => {
            return Err(DecodingFault::InvalidJson);
        },
        JsonProbe::Object => {},
        _ => {
            return Err(DecodingFault::UnexpectedShape);
        },
    }
    let result_text: Option<String> = match result {
        JsonProbe::Absent => None,
        JsonProbe::Null => None,
        JsonProbe::Text(text) => Some(text),
        _ => {
            return Err(DecodingFault::UnexpectedShape);
        },
    };
    let error_object: Option<JsonRpcError> = match error {
        JsonProbe::Absent => None,
        JsonProbe::Null => None,
        JsonProbe::Object => match (code, message) {
            (JsonProbe::Number(Some(code)), JsonProbe::Text(message)) => Some(
                JsonRpcError { code, message },
            ),
            _ => {
                return Err(DecodingFault::UnexpectedShape);
            },
        },
        _ => {
            return Err(DecodingFault::UnexpectedShape);
        },
    };
    Ok(JsonRpcResult { result: result_text, error: error_object })
}

/// Decodes the text of a response into its envelope.
pub fn decode_envelope(text: &str) -> (envelope: Result<JsonRpcResult, DecodingFault>)
    ensures
        envelope_view(envelope) == decoded_envelope(text@),
{
    let root = probe(text, "");
    match root {
        JsonProbe::Object => {},
        _ => {
            return read_envelope(
                root,
                JsonProbe::Absent,
                JsonProbe::Absent,
                JsonProbe::Absent,
                JsonProbe::Absent,
            );
        },
    }
    let result = probe(text, "/result");
    let error = probe(text, "/error");
    match error {
        JsonProbe::Object => {
            let code = probe(text, "/error/code");
            let message = probe(text, "/error/message");
            read_envelope(root, result, error, code, message)
        },
        _ => read_envelope(root, result, error, JsonProbe::Absent, JsonProbe::Absent),
    }
}

impl JsonRpcResult {
    /// What the call returns for this envelope: its error object as an
    /// error, or else its result; an envelope with neither is malformed.
    pub fn into_outcome(self) -> (outcome: Result<String, EthRpcError>)
        ensures
            crate::error::outcome_view(outcome) == envelope_outcome(self@),
    {
        match self.error {
            Some(error) => Err(EthRpcError::Rpc { code: error.code, message: error.message }),
            None => match self.result {
                Some(text) => Ok(text),
                None => Err(EthRpcError::MalformedResponse),
            },
        }
    }
}

} // verus!
