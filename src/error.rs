//! The failures of a call, and how a raw outcome is classified into them.

use crate::ajax::opt_string_view;
use vstd::prelude::*;

verus! {

/// The conventional error envelope of an upstream service: `{"message": ...}`.
#[derive(Clone, Debug, PartialEq, Eq)]
pub struct CustomError {
    pub message: String,
}

/// No response came back: DNS, connect, TLS or timeout failure.
#[derive(Clone, Debug, PartialEq, Eq)]
pub struct NetworkError {
    pub message: String,
}

/// A response came back with a status outside `[200, 300)`.
#[derive(Clone, Debug, PartialEq, Eq)]
pub struct HttpError {
    pub message: String,
    pub code: u16,
}

/// A success response whose body did not decode into the expected type.
#[derive(Clone, Debug, PartialEq, Eq)]
pub struct ParseError {
    pub message: String,
    pub code: u16,
    /// The body as it was received.
    pub body: String,
}

/// How a call failed.
#[derive(Clone, Debug, PartialEq, Eq)]
pub enum FetchError {
    Network(NetworkError),
    Http(HttpError),
    Parse(ParseError),
}

impl From<NetworkError> for FetchError {
    fn from(e: NetworkError) -> (r: FetchError) {
        FetchError::Network(e)
    }
}

impl vstd::std_specs::convert::FromSpecImpl<NetworkError> for FetchError {
    open spec fn obeys_from_spec() -> bool {
        true
    }

    open spec fn from_spec(e: NetworkError) -> FetchError {
        FetchError::Network(e)
    }
}

impl From<HttpError> for FetchError {
    fn from(e: HttpError) -> (r: FetchError) {
        FetchError::Http(e)
    }
}

impl vstd::std_specs::convert::FromSpecImpl<HttpError> for FetchError {
    open spec fn obeys_from_spec() -> bool {
        true
    }

    open spec fn from_spec(e: HttpError) -> FetchError {
        FetchError::Http(e)
    }
}

impl From<ParseError> for FetchError {
    fn from(e: ParseError) -> (r: FetchError) {
        FetchError::Parse(e)
    }
}

impl vstd::std_specs::convert::FromSpecImpl<ParseError> for FetchError {
    open spec fn obeys_from_spec() -> bool {
        true
    }

    open spec fn from_spec(e: ParseError) -> FetchError {
        FetchError::Parse(e)
    }
}

/// What came back from the transport: a response, or the transport's error text.
#[derive(Clone, Debug, PartialEq, Eq)]
pub struct RawResponse {
    pub status: u16,
    pub body: String,
}

/// Whether a status code signals success.
pub open spec fn is_success_spec(code: u16) -> bool {
    200 <= code < 300
}

/// Whether a status code lies in `[200, 300)`.
pub fn is_success(code: u16) -> (r: bool)
    ensures
        r == is_success_spec(code),
{
    200 <= code && code < 300
}

/// The message that an attempt to decode an error envelope yields: the
/// envelope's message, or else the decoder's own description of why it failed.
pub open spec fn message_of(envelope: Result<CustomError, String>) -> Seq<char> {
    match envelope {
        Ok(e) => e.message@,
        Err(why) => why@,
    }
}

/// The human-readable message of an error envelope decode; see [`message_of`].
pub fn message_from_envelope(envelope: Result<CustomError, String>) -> (r: String)
    ensures
        r@ == message_of(envelope),
{
    match envelope {
        Ok(e) => e.message,
        Err(why) => why,
    }
}

/// Decodes `raw_text` as an error envelope with `decode_envelope` and returns
/// its message, or the decoder's error text when it is no envelope.
pub fn extract_message<E>(raw_text: String, decode_envelope: &E) -> (r: String) where
    E: Fn(String) -> Result<CustomError, String>,

    requires
        forall|s: String| decode_envelope.requires((s,)),
    ensures
        exists|env: Result<CustomError, String>|
            decode_envelope.ensures((raw_text,), env) && r@ == message_of(env),
{
    let env = decode_envelope(raw_text);
    message_from_envelope(env)
}

/// Extracting a message holds no state of its own: where the envelope
/// decoder is a function of its text, two extractions from the same text
/// (two results that [`extract_message`] allows) are equal.
pub proof fn lemma_extract_message_idempotent<E>(
    decode_envelope: E,
    raw_text: String,
    first: String,
    second: String,
) where E: Fn(String) -> Result<CustomError, String>
    requires
        forall|s: String, a: Result<CustomError, String>, b: Result<CustomError, String>|
            decode_envelope.ensures((s,), a) && decode_envelope.ensures((s,), b) ==> a == b,
        exists|env: Result<CustomError, String>|
            decode_envelope.ensures((raw_text,), env) && first@ == message_of(env),
        exists|env: Result<CustomError, String>|
            decode_envelope.ensures((raw_text,), env) && second@ == message_of(env),
    ensures
        first@ == second@,
{
}

/// Turns the outcome of a call into the decoded payload or one failure:
/// a transport error is a network failure; a success status gives the body
/// decoded by `decode_body`, or a parse failure that keeps the status, the
/// body and the message extracted from the decode error; any other status
/// is an HTTP failure with the message extracted from the body.
pub fn classify<T, D, E>(
    outcome: Result<RawResponse, String>,
    decode_body: D,
    decode_envelope: E,
) -> (r: Result<T, FetchError>) where
    D: Fn(String) -> Result<T, String>,
    E: Fn(String) -> Result<CustomError, String>,

    requires
        forall|s: String| decode_body.requires((s,)),
        forall|s: String| decode_envelope.requires((s,)),
    ensures
        match outcome {
            Err(why) => r == Err::<T, FetchError>(
                FetchError::Network(NetworkError { message: why }),
            ),
            Ok(resp) => if is_success_spec(resp.status) {
                match r {
                    Ok(v) => decode_body.ensures((resp.body,), Ok::<T, String>(v)),
                    Err(FetchError::Parse(e)) => {
                        &&& e.code == resp.status
                        &&& e.body == resp.body
                        &&& exists|why: String, env: Result<CustomError, String>|
                            decode_body.ensures((resp.body,), Err::<T, String>(why))
                                && decode_envelope.ensures((why,), env)
                                && e.message@ == message_of(env)
                    },
                    Err(_) => false,
                }
            } else {
                match r {
                    Err(FetchError::Http(e)) => {
                        &&& e.code == resp.status
                        &&& exists|env: Result<CustomError, String>|
                            decode_envelope.ensures((resp.body,), env)
                                && e.message@ == message_of(env)
                    },
                    _ => false,
                }
            },
        },
{
    match outcome {
        Err(why) => Err(FetchError::Network(NetworkError { message: why })),
        Ok(resp) => {
            if is_success(resp.status) {
                match decode_body(resp.body.clone()) {
                    Ok(v) => Ok(v),
                    Err(why) => {
                        let message = extract_message(why, &decode_envelope);
                        let code = resp.status;
                        Err(FetchError::Parse(ParseError { message, code, body: resp.body }))
                    },
                }
            } else {
                let message = extract_message(resp.body, &decode_envelope);
                Err(FetchError::Http(HttpError { message, code: resp.status }))
            }
        },
    }
}

/// The decimal digit `d`.
pub open spec fn digit_char(d: nat) -> char {
    seq!['0', '1', '2', '3', '4', '5', '6', '7', '8', '9'][d as int]
}

/// The decimal representation of `n`, without leading zeros.
pub open spec fn decimal(n: nat) -> Seq<char>
    decreases n,
{
    if n < 10 {
        seq![digit_char(n)]
    } else {
        decimal(n / 10) + seq![digit_char(n % 10)]
    }
}

fn digit_str(d: u16) -> (r: &'static str)
    requires
        d < 10,
    ensures
        r@ == seq![digit_char(d as nat)],
{
    proof {
        reveal_strlit("0");
        reveal_strlit("1");
        reveal_strlit("2");
        reveal_strlit("3");
        reveal_strlit("4");
        reveal_strlit("5");
        reveal_strlit("6");
        reveal_strlit("7");
        reveal_strlit("8");
        reveal_strlit("9");
    }
    let r = match d {
        0 => "0",
        1 => "1",
        2 => "2",
        3 => "3",
        4 => "4",
        5 => "5",
        6 => "6",
        7 => "7",
        8 => "8",
        _ => "9",
    };
    assert(r@ =~= seq![digit_char(d as nat)]);
    r
}

/// The decimal representation of `n`.
pub fn decimal_string(n: u16) -> (r: String)
    ensures
        r@ == decimal(n as nat),
    decreases n,
{
    if n < 10 {
        String::from_str(digit_str(n))
    } else {
        let mut r = decimal_string(n / 10);
        r.append(digit_str(n % 10));
        r
    }
}

/// The standard reason phrase of a status code, where it has one.
pub uninterp spec fn canonical_reason_of(code: u16) -> Option<Seq<char>>;

/// Relies on `http::StatusCode::canonical_reason`: the reason phrase that the
/// standard gives a code, if any; it depends on the code alone.
/// `StatusCode::from_u16` accepts every code in `[100, 999]`.
#[verifier::external_body]
fn canonical_reason(code: u16) -> (r: Option<String>)
    requires
        100 <= code <= 999,
    ensures
        opt_string_view(r) == canonical_reason_of(code),
{
    match http::StatusCode::from_u16(code) {
        Ok(status) => status.canonical_reason().map(|p| p.to_string()),
        Err(_) => None,
    }
}

/// A status code as it is shown: its number, then its reason phrase, or a
/// note that the code is unknown.
pub open spec fn status_text(code: u16) -> Seq<char> {
    let reason = if 100 <= code <= 999 {
        canonical_reason_of(code)
    } else {
        None
    };
    decimal(code as nat) + seq![' '] + match reason {
        Some(p) => p,
        None => "<unknown status code>"@,
    }
}

/// Renders a status code; see [`status_text`].
pub fn render_status(code: u16) -> (r: String)
    ensures
        r@ == status_text(code),
{
    let mut r = decimal_string(code);
    let space = " ";
    proof {
        reveal_strlit(" ");
        assert(space@ =~= seq![' ']);
    }
    r.append(space);
    let reason = if 100 <= code && code <= 999 {
        canonical_reason(code)
    } else {
        None
    };
    match reason {
        Some(p) => r.append(p.as_str()),
        None => r.append("<unknown status code>"),
    }
    r
}

/// The text that describes a failure.
pub open spec fn description(e: FetchError) -> Seq<char> {
    match e {
        FetchError::Network(n) => "Network error: "@ + n.message@,
        FetchError::Http(h) => "Http error ["@ + status_text(h.code) + "]: "@ + h.message@,
        FetchError::Parse(p) => "Parse error ["@ + status_text(p.code) + "]: "@ + p.message@
            + ". \nOrigin body: "@ + p.body@,
    }
}

impl FetchError {
    /// Describes the failure for a person to read; see [`description`].
    pub fn describe(&self) -> (r: String)
        ensures
            r@ == description(*self),
    {
        match self {
            FetchError::Network(n) => {
                let mut r = String::from_str("Network error: ");
                r.append(n.message.as_str());
                r
            },
            FetchError::Http(h) => {
                let mut r = String::from_str("Http error [");
                let status = render_status(h.code);
                r.append(status.as_str());
                r.append("]: ");
                r.append(h.message.as_str());
                r
            },
            FetchError::Parse(p) => {
                let mut r = String::from_str("Parse error [");
                let status = render_status(p.code);
                r.append(status.as_str());
                r.append("]: ");
                r.append(p.message.as_str());
                r.append(". \nOrigin body: ");
                r.append(p.body.as_str());
                r
            },
        }
    }
}

} // verus!
