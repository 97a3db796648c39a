use vstd::prelude::*;
use crate::json::{JsonValue, spec_field, get_field, parse_json, parsed_json};

verus! {

/// The endpoint role a request was made for; every failure is tagged with
/// it so a caller can tell which operation went wrong.
#[derive(Debug, Clone, Copy, PartialEq, Eq, Structural)]
pub enum Op {
    ItemByCounter,
    Item,
    ItemInstances,
}

impl Op {
    /// The operation label used in error reports.
    pub fn label(&self) -> (r: &'static str)
        ensures
            match self {
                Op::ItemByCounter => r@ == "item_by_counter"@,
                Op::Item => r@ == "item"@,
                Op::ItemInstances => r@ == "item instances"@,
            },
    {
        match self {
            Op::ItemByCounter => "item_by_counter",
            Op::Item => "item",
            Op::ItemInstances => "item instances",
        }
    }
}

/// Everything that can go wrong with one operation, surfaced to the caller
/// unchanged; no kind is retried or suppressed.
#[derive(Debug, PartialEq)]
pub enum ApiError {
    /// The request could not be sent or no response was received.
    Transport { op: Op },
    /// The response carried a non-success HTTP status.
    Status { op: Op, code: u16 },
    /// The body was not valid JSON, not a valid envelope, or the payload
    /// did not match any shape the endpoint knows.
    Decode { op: Op },
    /// The envelope's success flag was nonzero; the message is the
    /// service-provided text, or a generic fallback when none was sent.
    Service { op: Op, message: String },
    /// The envelope claimed success but carried no payload: a protocol
    /// violation by the remote service, not a domain "not found".
    MissingResult { op: Op },
}

/// The outcome of one HTTP exchange, as the transport layer hands it over:
/// either no response at all, or a status code with the response body.
#[derive(Debug, PartialEq)]
pub enum FetchOutcome {
    TransportFailure,
    Response { status: u16, body: String },
}

/// A success status in the sense of this protocol: any 2xx code.
pub open spec fn status_ok(status: u16) -> bool {
    200 <= status && status <= 299
}

/// The fallback text used when the service reports a failure without a message.
pub open spec fn default_service_message() -> Seq<char> {
    "unknown error from Rollbar"@
}

/// The field list of an envelope body, which must be a JSON object.
pub open spec fn envelope_fields(v: JsonValue) -> Option<Seq<(String, JsonValue)>> {
    match v {
        JsonValue::Object(fs) => Some(fs@),
        _ => None,
    }
}

/// The envelope's success flag: present only when the body is an object
/// whose `err` field is an integer that fits the flag's byte range.
pub open spec fn envelope_err(v: JsonValue) -> Option<u64> {
    match envelope_fields(v) {
        Some(fs) => match spec_field(fs, "err"@) {
            Some(JsonValue::UInt(u)) => if u <= 255 {
                Some(u)
            } else {
                None
            },
            _ => None,
        },
        None => None,
    }
}

/// The envelope's optional human-readable message.  The outer `None` means
/// the field was present but not a string: a malformed envelope.
pub open spec fn envelope_message(v: JsonValue) -> Option<Option<String>> {
    match envelope_fields(v) {
        Some(fs) => match spec_field(fs, "message"@) {
            None => Some(None),
            Some(JsonValue::Null) => Some(None),
            Some(JsonValue::Str(s)) => Some(Some(s)),
            Some(_) => None,
        },
        None => None,
    }
}

/// The envelope's payload, with an explicit JSON `null` counting as absent.
pub open spec fn envelope_payload(v: JsonValue) -> Option<JsonValue> {
    match envelope_fields(v) {
        Some(fs) => match spec_field(fs, "result"@) {
            None => None,
            Some(JsonValue::Null) => None,
            Some(p) => Some(p),
        },
        None => None,
    }
}

/// A body parses as an envelope at all: an object with a valid success
/// flag and a well-typed (or absent) message.
pub open spec fn envelope_well_formed(v: JsonValue) -> bool {
    envelope_err(v) is Some && envelope_message(v) is Some
}

/// How the envelope decoder classifies a parsed response body.
pub enum EnvelopeVerdict {
    /// Not valid JSON, or not a well-formed envelope.
    Malformed,
    /// The success flag was nonzero; the service's message, if it sent one.
    ServiceFailure(Option<String>),
    /// The success flag was zero but no payload was present.
    MissingResult,
    /// The success flag was zero and this payload was present.
    Payload(JsonValue),
}

/// The envelope decoder's policy, as one function of the parsed body:
/// a malformed envelope fails, a nonzero success flag fails with the
/// service's message whether or not a payload is present, a zero flag
/// without a payload is a distinct protocol violation, and otherwise the
/// payload is handed on uninterpreted.
pub open spec fn decode_verdict(parsed: Option<JsonValue>) -> EnvelopeVerdict {
    match parsed {
        None => EnvelopeVerdict::Malformed,
        Some(env) => if !envelope_well_formed(env) {
            EnvelopeVerdict::Malformed
        } else if envelope_err(env) != Some(0u64) {
            EnvelopeVerdict::ServiceFailure(envelope_message(env).unwrap())
        } else {
            match envelope_payload(env) {
                None => EnvelopeVerdict::MissingResult,
                Some(p) => EnvelopeVerdict::Payload(p),
            }
        },
    }
}

/// What an operation's result must be when the service reported a failure:
/// the service's own message when it sent one, else the generic fallback.
pub open spec fn service_failure_matches<T>(m: Option<String>, op: Op, r: Result<
    T,
    ApiError,
>) -> bool {
    match m {
        Some(msg) => r == Err::<T, ApiError>(ApiError::Service { op, message: msg }),
        None => r matches Err(e) && e matches ApiError::Service { op: eop, message } && eop == op
            && message@ == default_service_message(),
    }
}

/// What an operation's result must be on each failing verdict; a payload
/// verdict leaves the result to the endpoint's own normalization.
pub open spec fn error_matches_verdict<T>(
    verdict: EnvelopeVerdict,
    op: Op,
    r: Result<T, ApiError>,
) -> bool {
    match verdict {
        EnvelopeVerdict::Malformed => r == Err::<T, ApiError>(ApiError::Decode { op }),
        EnvelopeVerdict::ServiceFailure(m) => service_failure_matches(m, op, r),
        EnvelopeVerdict::MissingResult => r == Err::<T, ApiError>(ApiError::MissingResult { op }),
        EnvelopeVerdict::Payload(_) => true,
    }
}

/// Take the first value bound to `key` out of an object's field list.
fn take_first(fields: Vec<(String, JsonValue)>, key: &str) -> (r: Option<JsonValue>)
    ensures
        r == spec_field(fields@, key@),
{
    let ghost whole = fields@;
    let mut fields = fields;
    let mut acc: Option<JsonValue> = None;
    let key_string: String = key.to_owned();
    proof {
        assert(whole.take(whole.len() as int) =~= whole);
        assert(whole.skip(whole.len() as int).len() == 0);
    }
    while fields.len() > 0
        invariant
            fields@ == whole.take(fields@.len() as int),
            fields@.len() <= whole.len(),
            key_string@ == key@,
            acc == spec_field(whole.skip(fields@.len() as int), key@),
        decreases fields@.len(),
    {
        let ghost n = fields@.len() as int;
        let pair = fields.pop().unwrap();
        proof {
            assert(pair == whole[n - 1]);
            assert(fields@ =~= whole.take(n - 1));
            assert(whole.skip(n - 1)[0] == whole[n - 1]);
            assert(whole.skip(n - 1).skip(1) =~= whole.skip(n));
        }
        if pair.0 == key_string {
            acc = Some(pair.1);
        }
    }
    proof {
        assert(whole.skip(0) =~= whole);
    }
    acc
}

/// Decode a parsed response body as the generic service envelope and
/// extract its payload, exactly as `decode_verdict` classifies it.
pub fn decode_envelope(env: JsonValue, op: Op) -> (r: Result<JsonValue, ApiError>)
    ensures
        error_matches_verdict(decode_verdict(Some(env)), op, r),
        decode_verdict(Some(env)) matches EnvelopeVerdict::Payload(p) ==> r == Ok::<
            JsonValue,
            ApiError,
        >(p),
{
    let fields: Vec<(String, JsonValue)> = match env {
        JsonValue::Object(fields) => fields,
        _ => {
            return Err(ApiError::Decode { op });
        },
    };
    let err_flag: u64 = match get_field(&fields, "err") {
        Some(v) => match v {
            JsonValue::UInt(u) => {
                if *u <= 255 {
                    *u
                } else {
                    return Err(ApiError::Decode { op });
                }
            },
            _ => {
                return Err(ApiError::Decode { op });
            },
        },
        None => {
            return Err(ApiError::Decode { op });
        },
    };
    let message: Option<String> = match get_field(&fields, "message") {
        None => None,
        Some(v) => match v {
            JsonValue::Null => None,
            JsonValue::Str(s) => Some(s.clone()),
            _ => {
                return Err(ApiError::Decode { op });
            },
        },
    };
    if err_flag != 0 {
        let text: String = match message {
            Some(m) => m,
            None => "unknown error from Rollbar".to_owned(),
        };
        return Err(ApiError::Service { op, message: text });
    }
    match take_first(fields, "result") {
        None => Err(ApiError::MissingResult { op }),
        Some(JsonValue::Null) => Err(ApiError::MissingResult { op }),
        Some(p) => Ok(p),
    }
}

/// Decode the outcome of one authenticated GET: a transport failure and a
/// non-2xx status fail immediately; a success status has its body parsed
/// and put through the envelope decoder.
pub fn decode_response(outcome: FetchOutcome, op: Op) -> (r: Result<JsonValue, ApiError>)
    ensures
        outcome is TransportFailure ==> r == Err::<JsonValue, ApiError>(ApiError::Transport { op }),
        outcome matches FetchOutcome::Response { status, body } ==> {
            &&& !status_ok(status) ==> r == Err::<JsonValue, ApiError>(
                ApiError::Status { op, code: status },
            )
            &&& status_ok(status) ==> {
                &&& error_matches_verdict(decode_verdict(parsed_json(body@)), op, r)
                &&& (decode_verdict(parsed_json(body@)) matches EnvelopeVerdict::Payload(p) ==> r
                    == Ok::<JsonValue, ApiError>(p))
            }
        },
{
    match outcome {
        FetchOutcome::TransportFailure => Err(ApiError::Transport { op }),
        FetchOutcome::Response { status, body } => {
            if !(200 <= status && status <= 299) {
                return Err(ApiError::Status { op, code: status });
            }
            match parse_json(body.as_str()) {
                None => Err(ApiError::Decode { op }),
                Some(env) => decode_envelope(env, op),
            }
        },
    }
}

/// Law: a response whose success flag is nonzero always yields a service
/// failure, whether or not a payload is present.
pub proof fn lemma_nonzero_err_is_service_failure(env: JsonValue)
    requires
        envelope_well_formed(env),
        envelope_err(env) matches Some(e) && e != 0,
    ensures
        decode_verdict(Some(env)) matches EnvelopeVerdict::ServiceFailure(m) && m
            == envelope_message(env).unwrap(),
{
}

/// Law: a response whose success flag is zero but whose payload is absent
/// yields the distinct missing-result failure, never a service failure and
/// never a payload.
pub proof fn lemma_missing_result_is_distinct(env: JsonValue)
    requires
        envelope_well_formed(env),
        envelope_err(env) == Some(0u64),
        envelope_payload(env) is None,
    ensures
        decode_verdict(Some(env)) is MissingResult,
        !(decode_verdict(Some(env)) is ServiceFailure),
        !(decode_verdict(Some(env)) is Payload),
{
}

} // verus!
