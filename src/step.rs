//! The routine shared by every outbound call: how a call's outcome is
//! classified (transport error, upstream rejection, decode error) and how
//! the upstream response body is read.

use vstd::prelude::*;
use vstd::string::StringExecFns;

verus! {

#[verifier::external_type_specification]
#[verifier::external_body]
pub struct ExValue(serde_json::Value);

/// Whether `serde_json` reads `text` as one JSON document: well-formed
/// JSON text that nests no deeper than the parser's recursion limit.
pub uninterp spec fn json_valid(text: Seq<char>) -> bool;

/// The text of the JSON string that the document `text` holds at the JSON
/// pointer `pointer`, if `text` is a document and holds a string there.
pub uninterp spec fn json_str_at(text: Seq<char>, pointer: Seq<char>) -> Option<Seq<char>>;

/// Relies on `serde_json::from_str` into a `serde_json::Value`: it succeeds
/// exactly on the texts that it reads as one JSON document (well-formed,
/// and within its nesting limit); its error is turned into its message.
#[verifier::external_body]
fn parse_json(text: &str) -> (r: Result<serde_json::Value, String>)
    ensures
        r is Ok <==> json_valid(text@),
{
    match serde_json::from_str::<serde_json::Value>(text) {
        Ok(v) => Ok(v),
        Err(e) => Err(e.to_string()),
    }
}

/// Relies on `serde_json::from_str` into a `serde_json::Value`, then
/// `Value::pointer` and `Value::as_str`: the string found at a JSON pointer
/// of a document, which depends on the two texts alone. Text that is not a
/// document holds no string.
#[verifier::external_body]
fn string_at(text: &str, pointer: &str) -> (r: Option<String>)
    ensures
        !json_valid(text@) ==> r is None,
        r is Some <==> json_str_at(text@, pointer@) is Some,
        r matches Some(s) ==> s@ == json_str_at(text@, pointer@)->0,
{
    let value: serde_json::Value = match serde_json::from_str(text) {
        Ok(v) => v,
        Err(_) => return None,
    };
    match value.pointer(pointer) {
        Some(found) => match found.as_str() {
            Some(s) => Some(s.to_string()),
            None => None,
        },
        None => None,
    }
}

/// `p` opens the text `s`.
pub open spec fn starts_with(s: Seq<char>, p: Seq<char>) -> bool {
    p.len() <= s.len() && s.subrange(0, p.len() as int) == p
}

/// A text followed by anything starts with that text.
pub proof fn lemma_starts_with_concat(p: Seq<char>, d: Seq<char>)
    ensures
        starts_with(p + d, p),
{
    assert((p + d).subrange(0, p.len() as int) =~= p);
}

/// JSON pointer of the quote identifier in an upstream envelope
/// `{"data": {"quoteId": ...}}`.
pub const QUOTE_ID_POINTER: &'static str = "/data/quoteId";

/// Text of the decode error when the envelope holds no quote identifier.
pub const MISSING_QUOTE_ID: &'static str = "missing string field `data.quoteId`";

/// What happened to one outbound call, as the host observed it.
#[derive(Clone, Debug)]
pub enum StepEvent {
    /// The request could not be carried out (connection, DNS, timeout).
    TransportFailed { error: String },
    /// The upstream answered with this status and body text.
    Responded { status: u16, body: String },
}

/// The three ways in which a step fails; each carries its cause text.
#[derive(Clone, Debug)]
pub enum StepError {
    Transport { detail: String },
    Rejected { body: String },
    Decode { detail: String },
}

/// The upstream's generic envelope: one data payload.
#[derive(Clone, Debug)]
pub struct ApiResponse<T> {
    pub data: T,
}

/// Payload of an upstream quote or trade response.
#[derive(Clone, Debug)]
pub struct QuoteData {
    pub quote_id: String,
}

/// Payload of a trade response.
pub type TradeData = QuoteData;

/// A status in the success range.
pub open spec fn is_success_status(status: u16) -> bool {
    200 <= status < 300
}

impl StepError {
    /// The cause text that the error carries.
    pub open spec fn detail_view(&self) -> Seq<char> {
        match self {
            StepError::Transport { detail } => detail@,
            StepError::Rejected { body } => body@,
            StepError::Decode { detail } => detail@,
        }
    }

    /// The cause text that the error carries.
    pub fn detail(&self) -> (r: &String)
        ensures
            r@ == self.detail_view(),
    {
        match self {
            StepError::Transport { detail } => detail,
            StepError::Rejected { body } => body,
            StepError::Decode { detail } => detail,
        }
    }
}

/// First half of every step: a transport failure or a status outside the
/// success range ends the step; otherwise the body is handed on for decoding.
pub fn check_response(event: StepEvent) -> (r: Result<String, StepError>)
    ensures
        match event {
            StepEvent::TransportFailed { error } => r matches Err(
                StepError::Transport { detail },
            ) && detail@ == error@,
            StepEvent::Responded { status, body } => if is_success_status(status) {
                r matches Ok(b) && b@ == body@
            } else {
                r matches Err(StepError::Rejected { body: b }) && b@ == body@
            },
        },
{
    match event {
        StepEvent::TransportFailed { error } => Err(StepError::Transport { detail: error }),
        StepEvent::Responded { status, body } => {
            if 200 <= status && status < 300 {
                Ok(body)
            } else {
                Err(StepError::Rejected { body })
            }
        },
    }
}

/// A step whose response only has to be JSON: the body is checked and
/// returned unchanged.
pub fn json_step(event: StepEvent) -> (r: Result<String, StepError>)
    ensures
        match event {
            StepEvent::TransportFailed { error } => r matches Err(
                StepError::Transport { detail },
            ) && detail@ == error@,
            StepEvent::Responded { status, body } => if !is_success_status(status) {
                r matches Err(StepError::Rejected { body: b }) && b@ == body@
            } else if json_valid(body@) {
                r matches Ok(b) && b@ == body@
            } else {
                r matches Err(StepError::Decode { .. })
            },
        },
{
    let body = check_response(event)?;
    match parse_json(body.as_str()) {
        Ok(_) => Ok(body),
        Err(detail) => Err(StepError::Decode { detail }),
    }
}

/// Reads the quote identifier out of an upstream envelope.
pub fn decode_quote(body: &str) -> (r: Result<ApiResponse<QuoteData>, StepError>)
    ensures
        r is Ok <==> json_valid(body@) && json_str_at(body@, QUOTE_ID_POINTER@) is Some,
        r matches Ok(e) ==> e.data.quote_id@ == json_str_at(body@, QUOTE_ID_POINTER@)->0,
        r is Err ==> r matches Err(StepError::Decode { .. }),
{
    if let Err(detail) = parse_json(body) {
        return Err(StepError::Decode { detail });
    }
    match string_at(body, QUOTE_ID_POINTER) {
        Some(quote_id) => Ok(ApiResponse { data: QuoteData { quote_id } }),
        None => Err(StepError::Decode { detail: String::from_str(MISSING_QUOTE_ID) }),
    }
}

/// A step whose response carries a quote: yields the quote identifier.
pub fn quote_step(event: StepEvent) -> (r: Result<String, StepError>)
    ensures
        match event {
            StepEvent::TransportFailed { error } => r matches Err(
                StepError::Transport { detail },
            ) && detail@ == error@,
            StepEvent::Responded { status, body } => if !is_success_status(status) {
                r matches Err(StepError::Rejected { body: b }) && b@ == body@
            } else if !json_valid(body@) {
                r matches Err(StepError::Decode { .. })
            } else {
                match json_str_at(body@, QUOTE_ID_POINTER@) {
                    Some(q) => r matches Ok(x) && x@ == q,
                    None => r matches Err(StepError::Decode { .. }),
                }
            },
        },
{
    let body = check_response(event)?;
    let envelope = decode_quote(body.as_str())?;
    Ok(envelope.data.quote_id)
}

} // verus!
