use serde_json::Value;
use vstd::prelude::*;
use vstd::string::*;

use crate::error::{RelayResult, SubmitError};

verus! {

/// Path and query that the raw-binary relay takes after its base address.
pub const RAW_QUERY: &'static str = "/txb?api-key=";

/// Query that the JSON-RPC relay takes after its base address.
pub const JSON_QUERY: &'static str = "?api-key=";

/// The JSON-RPC request up to the base64 envelope.
pub const JSON_HEAD: &'static str = "{\"jsonrpc\":\"2.0\",\"id\":1,\"method\":\"sendTransaction\",\"params\":[\"";

/// The JSON-RPC request after the base64 envelope.
pub const JSON_TAIL: &'static str = "\",{\"encoding\":\"base64\",\"skipPreflight\":true}]}";

/// The character of the standard base64 alphabet for a value below 64.
pub open spec fn base64_digit(v: int) -> char {
    if v < 26 {
        ('A' as int + v) as char
    } else if v < 52 {
        ('a' as int + (v - 26)) as char
    } else if v < 62 {
        ('0' as int + (v - 52)) as char
    } else if v == 62 {
        '+'
    } else {
        '/'
    }
}

/// The standard base64 text, with `=` padding, of some bytes: each group of
/// three bytes becomes four characters of six bits each, most significant first.
pub open spec fn base64_text(b: Seq<u8>) -> Seq<char>
    decreases b.len(),
{
    if b.len() == 0 {
        Seq::empty()
    } else if b.len() == 1 {
        seq![base64_digit((b[0] as int) / 4), base64_digit(((b[0] as int) % 4) * 16), '=', '=']
    } else if b.len() == 2 {
        seq![
            base64_digit((b[0] as int) / 4),
            base64_digit(((b[0] as int) % 4) * 16 + (b[1] as int) / 16),
            base64_digit(((b[1] as int) % 16) * 4),
            '=',
        ]
    } else {
        seq![
            base64_digit((b[0] as int) / 4),
            base64_digit(((b[0] as int) % 4) * 16 + (b[1] as int) / 16),
            base64_digit(((b[1] as int) % 16) * 4 + (b[2] as int) / 64),
            base64_digit((b[2] as int) % 64),
        ] + base64_text(b.subrange(3, b.len() as int))
    }
}

/// Relies on base64::encode: the standard-alphabet, padded base64 text of `b`.
#[verifier::external_body]
fn encode_base64(b: &Vec<u8>) -> (r: String)
    ensures
        r@ == base64_text(b@),
{
    #[allow(deprecated)]
    base64::encode(b)
}

/// Whether a text holds one JSON document.
pub uninterp spec fn json_valid(text: Seq<char>) -> bool;

/// The compact JSON text of member `key` of the JSON object that a text holds;
/// `None` for an absent member, a document that is not an object, or a text
/// that is not JSON.
pub uninterp spec fn json_member_text(text: Seq<char>, key: Seq<char>) -> Option<Seq<char>>;

/// The contents of the JSON string that a text holds; `None` where the text
/// is not JSON or holds another kind of value.
pub uninterp spec fn json_string_contents(text: Seq<char>) -> Option<Seq<char>>;

/// Relies on serde_json::from_str::<Value>: whether `text` parses as JSON.
#[verifier::external_body]
fn is_json(text: &str) -> (r: bool)
    ensures
        r == json_valid(text@),
{
    serde_json::from_str::<Value>(text).is_ok()
}

/// Relies on Value::get with a string key, applied to what serde_json::from_str
/// reads from `text`; the member found is handed back as its Display text.
#[verifier::external_body]
fn member_text(text: &str, key: &str) -> (r: Option<String>)
    ensures
        match r {
            Some(m) => json_member_text(text@, key@) == Some(m@),
            None => json_member_text(text@, key@) is None,
        },
{
    serde_json::from_str::<Value>(text).ok().and_then(|v| v.get(key).map(|m| m.to_string()))
}

/// Relies on Value::as_str, applied to what serde_json::from_str reads from `text`.
#[verifier::external_body]
fn string_contents(text: &str) -> (r: Option<String>)
    ensures
        match r {
            Some(c) => json_string_contents(text@) == Some(c@),
            None => json_string_contents(text@) is None,
        },
{
    serde_json::from_str::<Value>(text).ok().and_then(|v| v.as_str().map(|c| c.to_string()))
}

/// The two wire contracts a relay may offer.
#[derive(Debug, Clone, Copy, PartialEq, Eq, Structural)]
pub enum Transport {
    /// The body is the serialized envelope itself.
    RawBinary,
    /// The body is a JSON-RPC `sendTransaction` call with the envelope in base64.
    JsonRpc,
}

/// The body of a request to a relay.
pub enum RelayBody {
    Binary(Vec<u8>),
    Json(String),
}

/// One HTTP POST to a relay.
pub struct RelayRequest {
    pub url: String,
    pub body: RelayBody,
}

/// What came back from one HTTP POST to a relay.
pub enum RelayReply {
    /// No answer: the connection failed or timed out.
    TransportFailed,
    /// An HTTP answer with its status code and body text.
    Answered { status: u16, body: String },
}

/// The address that a relay at `base` takes requests at, with credentials `key`.
pub open spec fn relay_url_of(t: Transport, base: Seq<char>, key: Seq<char>) -> Seq<char> {
    match t {
        Transport::RawBinary => base + RAW_QUERY@ + key,
        Transport::JsonRpc => base + JSON_QUERY@ + key,
    }
}

/// The JSON-RPC call that submits the envelope whose base64 text is `b64`.
pub open spec fn json_rpc_body(b64: Seq<char>) -> Seq<char> {
    JSON_HEAD@ + b64 + JSON_TAIL@
}

/// `body` carries the wire form `wire` as transport `t` asks.
pub open spec fn frames(t: Transport, body: RelayBody, wire: Seq<u8>) -> bool {
    match (t, body) {
        (Transport::RawBinary, RelayBody::Binary(b)) => b@ == wire,
        (Transport::JsonRpc, RelayBody::Json(s)) => s@ == json_rpc_body(base64_text(wire)),
        _ => false,
    }
}

/// What a raw-binary relay's HTTP answer means: a 2xx status with a non-empty
/// body accepts the envelope with that body as message; anything else fails.
pub open spec fn raw_outcome(status: u16, body: Seq<char>) -> Result<Seq<char>, SubmitError> {
    if 200 <= status <= 299 && body.len() > 0 {
        Ok(body)
    } else {
        Err(SubmitError::RelaySubmissionFailed)
    }
}

/// `r` is what `raw_outcome` gives for a raw-binary answer.
pub open spec fn meets_raw_outcome(r: Result<RelayResult, SubmitError>, status: u16, body: Seq<char>) -> bool {
    match raw_outcome(status, body) {
        Ok(m) => is_accepted(r, m),
        Err(e) => r == Err::<RelayResult, SubmitError>(e),
    }
}

/// `r` is acceptance with message `m`.
pub open spec fn is_accepted(r: Result<RelayResult, SubmitError>, m: Seq<char>) -> bool {
    r matches Ok(RelayResult::Accepted(s)) && s@ == m
}

/// `r` is rejection with detail `d`.
pub open spec fn is_rejected(r: Result<RelayResult, SubmitError>, d: Seq<char>) -> bool {
    r matches Ok(RelayResult::Rejected(s)) && s@ == d
}

/// The address to post to, for transport `t`, a relay at `base` and credentials `key`.
pub fn relay_url(t: Transport, base: &str, key: &str) -> (r: String)
    ensures
        r@ == relay_url_of(t, base@, key@),
{
    let mut url = String::from_str(base);
    match t {
        Transport::RawBinary => url.append(RAW_QUERY),
        Transport::JsonRpc => url.append(JSON_QUERY),
    }
    url.append(key);
    url
}

/// The JSON-RPC `sendTransaction` call for an envelope whose base64 text is `b64`.
pub fn json_rpc_request(b64: &str) -> (r: String)
    ensures
        r@ == json_rpc_body(b64@),
{
    let mut body = String::from_str(JSON_HEAD);
    body.append(b64);
    body.append(JSON_TAIL);
    body
}

/// The body that carries the wire form `wire` for transport `t`.
pub fn relay_body(t: Transport, wire: Vec<u8>) -> (r: RelayBody)
    ensures
        frames(t, r, wire@),
{
    match t {
        Transport::RawBinary => RelayBody::Binary(wire),
        Transport::JsonRpc => {
            let b64 = encode_base64(&wire);
            RelayBody::Json(json_rpc_request(b64.as_str()))
        },
    }
}

/// What a raw-binary relay's HTTP answer means.
pub fn interpret_raw_reply(status: u16, body: String) -> (r: Result<RelayResult, SubmitError>)
    ensures
        meets_raw_outcome(r, status, body@),
{
    if 200 <= status && status <= 299 && !body.as_str().is_empty() {
        Ok(RelayResult::Accepted(body))
    } else {
        Err(SubmitError::RelaySubmissionFailed)
    }
}

/// What a JSON-RPC answer means, given the text of its `result` member and of
/// its error detail, where present: a result accepts, else an error rejects,
/// else the answer is unusable.
pub fn classify_json_reply(result: Option<String>, error: Option<String>) -> (r: Result<
    RelayResult,
    SubmitError,
>)
    ensures
        match (result, error) {
            (Some(m), _) => is_accepted(r, m@),
            (None, Some(d)) => is_rejected(r, d@),
            (None, None) => r == Err::<RelayResult, SubmitError>(SubmitError::RelaySubmissionFailed),
        },
{
    match result {
        Some(m) => Ok(RelayResult::Accepted(m)),
        None => match error {
            Some(d) => Ok(RelayResult::Rejected(d)),
            None => Err(SubmitError::RelaySubmissionFailed),
        },
    }
}

/// The text of a JSON value as a relay means it: a string's contents, or the
/// JSON text of any other value.
pub open spec fn value_text_of(v: Seq<char>) -> Seq<char> {
    match json_string_contents(v) {
        Some(c) => c,
        None => v,
    }
}

/// The error detail of a JSON-RPC answer: the `message` of its `error`
/// member, else that member whole.
pub open spec fn json_error_detail(body: Seq<char>) -> Option<Seq<char>> {
    match json_member_text(body, "error"@) {
        Some(e) => match json_member_text(e, "message"@) {
            Some(m) => Some(value_text_of(m)),
            None => Some(value_text_of(e)),
        },
        None => None,
    }
}

/// The `result` of a JSON-RPC answer, as a relay means it.
pub open spec fn json_result(body: Seq<char>) -> Option<Seq<char>> {
    match json_member_text(body, "result"@) {
        Some(m) => Some(value_text_of(m)),
        None => None,
    }
}

/// What a JSON-RPC answer means: one that is not JSON fails; otherwise a
/// `result` accepts, else an error rejects, else the answer is unusable.
pub open spec fn meets_json_outcome(r: Result<RelayResult, SubmitError>, body: Seq<char>) -> bool {
    if !json_valid(body) {
        r == Err::<RelayResult, SubmitError>(SubmitError::RelaySubmissionFailed)
    } else {
        match (json_result(body), json_error_detail(body)) {
            (Some(m), _) => is_accepted(r, m),
            (None, Some(d)) => is_rejected(r, d),
            (None, None) => r == Err::<RelayResult, SubmitError>(SubmitError::RelaySubmissionFailed),
        }
    }
}

/// The text of a JSON value as a relay means it.
fn value_text(v: String) -> (r: String)
    ensures
        r@ == value_text_of(v@),
{
    match string_contents(v.as_str()) {
        Some(c) => c,
        None => v,
    }
}

/// What a JSON-RPC answer with body text `body` means.
pub fn interpret_json_reply(body: &str) -> (r: Result<RelayResult, SubmitError>)
    ensures
        meets_json_outcome(r, body@),
{
    if !is_json(body) {
        return Err(SubmitError::RelaySubmissionFailed);
    }
    let result = match member_text(body, "result") {
        Some(m) => Some(value_text(m)),
        None => None,
    };
    let error = match member_text(body, "error") {
        Some(e) => match member_text(e.as_str(), "message") {
            Some(m) => Some(value_text(m)),
            None => Some(value_text(e)),
        },
        None => None,
    };
    classify_json_reply(result, error)
}

/// What a relay's reply means for transport `t`. No answer is a failure; a
/// raw-binary answer is read by `interpret_raw_reply`, a JSON-RPC answer by
/// `interpret_json_reply`.
pub fn interpret_reply(t: Transport, reply: RelayReply) -> (r: Result<RelayResult, SubmitError>)
    ensures
        reply is TransportFailed ==> r == Err::<RelayResult, SubmitError>(
            SubmitError::RelaySubmissionFailed,
        ),
        t == Transport::RawBinary ==> match reply {
            RelayReply::Answered { status, body } => meets_raw_outcome(r, status, body@),
            RelayReply::TransportFailed => true,
        },
        t == Transport::JsonRpc ==> match reply {
            RelayReply::Answered { status, body } => meets_json_outcome(r, body@),
            RelayReply::TransportFailed => true,
        },
        r is Err ==> r == Err::<RelayResult, SubmitError>(SubmitError::RelaySubmissionFailed),
{
    match reply {
        RelayReply::TransportFailed => Err(SubmitError::RelaySubmissionFailed),
        RelayReply::Answered { status, body } => match t {
            Transport::RawBinary => interpret_raw_reply(status, body),
            Transport::JsonRpc => interpret_json_reply(body.as_str()),
        },
    }
}

} // verus!
