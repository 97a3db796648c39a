use vstd::prelude::*;
use vstd::string::StringExecFns;
use crate::envelope::{
    ApiError, EnvelopeVerdict, FetchOutcome, Op, decode_response, decode_verdict,
    error_matches_verdict, status_ok,
};
use crate::instance::{ItemInstance, latest_instance_from_payload, spec_latest_of};
use crate::item::{Item, ItemCounter, ItemId, item_from_payload, item_id_from_payload, spec_item_id_of, spec_item_of};
use crate::json::{JsonValue, parsed_json};

verus! {

/// The decimal digit for one value below ten.
pub open spec fn digit_char(d: nat) -> char {
    if d == 0 {
        '0'
    } else if d == 1 {
        '1'
    } else if d == 2 {
        '2'
    } else if d == 3 {
        '3'
    } else if d == 4 {
        '4'
    } else if d == 5 {
        '5'
    } else if d == 6 {
        '6'
    } else if d == 7 {
        '7'
    } else if d == 8 {
        '8'
    } else {
        '9'
    }
}

/// The usual decimal rendering of a number, most significant digit first,
/// with no leading zeros except for zero itself.
pub open spec fn dec_digits(n: nat) -> Seq<char>
    decreases n,
{
    if n < 10 {
        seq![digit_char(n)]
    } else {
        dec_digits(n / 10).push(digit_char(n % 10))
    }
}

fn digit_str(d: u64) -> (r: &'static str)
    requires
        d < 10,
    ensures
        r@ == seq![digit_char(d as nat)],
{
    if d == 0 {
        proof {
            reveal_strlit("0");
            assert("0"@ =~= seq![digit_char(d as nat)]);
        }
        "0"
    } else if d == 1 {
        proof {
            reveal_strlit("1");
            assert("1"@ =~= seq![digit_char(d as nat)]);
        }
        "1"
    } else if d == 2 {
        proof {
            reveal_strlit("2");
            assert("2"@ =~= seq![digit_char(d as nat)]);
        }
        "2"
    } else if d == 3 {
        proof {
            reveal_strlit("3");
            assert("3"@ =~= seq![digit_char(d as nat)]);
        }
        "3"
    } else if d == 4 {
        proof {
            reveal_strlit("4");
            assert("4"@ =~= seq![digit_char(d as nat)]);
        }
        "4"
    } else if d == 5 {
        proof {
            reveal_strlit("5");
            assert("5"@ =~= seq![digit_char(d as nat)]);
        }
        "5"
    } else if d == 6 {
        proof {
            reveal_strlit("6");
            assert("6"@ =~= seq![digit_char(d as nat)]);
        }
        "6"
    } else if d == 7 {
        proof {
            reveal_strlit("7");
            assert("7"@ =~= seq![digit_char(d as nat)]);
        }
        "7"
    } else if d == 8 {
        proof {
            reveal_strlit("8");
            assert("8"@ =~= seq![digit_char(d as nat)]);
        }
        "8"
    } else {
        proof {
            reveal_strlit("9");
            assert("9"@ =~= seq![digit_char(d as nat)]);
        }
        "9"
    }
}

fn push_dec_digits(s: &mut String, n: u64)
    ensures
        final(s)@ == old(s)@ + dec_digits(n as nat),
    decreases n,
{
    if n >= 10 {
        push_dec_digits(s, n / 10);
        let d = digit_str(n % 10);
        s.append(d);
        proof {
            assert((n / 10) as nat == n as nat / 10);
            assert((n % 10) as nat == n as nat % 10);
            assert(old(s)@ + dec_digits(n as nat / 10) + seq![digit_char(n as nat % 10)] =~= old(
                s,
            )@ + dec_digits(n as nat));
        }
    } else {
        let d = digit_str(n);
        s.append(d);
        proof {
            assert(old(s)@ + seq![digit_char(n as nat)] =~= old(s)@ + dec_digits(n as nat));
        }
    }
}

/// What every operation's result must be on the failing paths: a transport
/// failure and a non-success status fail immediately, and a successfully
/// fetched body fails exactly as the envelope decoder classifies it.
pub open spec fn operation_failure_post<T>(
    outcome: FetchOutcome,
    op: Op,
    r: Result<T, ApiError>,
) -> bool {
    &&& outcome is TransportFailure ==> r == Err::<T, ApiError>(ApiError::Transport { op })
    &&& outcome matches FetchOutcome::Response { status, body } ==> {
        &&& !status_ok(status) ==> r == Err::<T, ApiError>(ApiError::Status { op, code: status })
        &&& status_ok(status) ==> error_matches_verdict(decode_verdict(parsed_json(body@)), op, r)
    }
}

/// The payload an outcome carries through the envelope decoder, if any.
pub open spec fn outcome_payload(outcome: FetchOutcome) -> Option<JsonValue> {
    match outcome {
        FetchOutcome::TransportFailure => None,
        FetchOutcome::Response { status, body } => if status_ok(status) {
            match decode_verdict(parsed_json(body@)) {
                EnvelopeVerdict::Payload(p) => Some(p),
                _ => None,
            }
        } else {
            None
        },
    }
}

/// A client of the error-tracking service's HTTP API.  It holds only the
/// immutable access token and base address fixed at construction; every
/// operation reads them through a shared borrow, so concurrent operations
/// share no mutable state.  The transport itself is the caller's: each
/// operation names its request URL and decodes the outcome the caller
/// fetched.
pub struct RollbarClient {
    pub access_token: String,
    pub base_url: String,
}

impl RollbarClient {
    /// A client for the service's fixed API base address, keeping the
    /// access token to be sent in the authentication header of every
    /// request.
    pub fn new(access_token: String) -> (c: Self)
        ensures
            c.access_token == access_token,
            c.base_url@ == "https://api.rollbar.com/api/1"@,
    {
        RollbarClient { access_token, base_url: "https://api.rollbar.com/api/1".to_owned() }
    }

    /// The fixed custom header that carries the access token on every request.
    pub fn auth_header_name() -> (r: &'static str)
        ensures
            r@ == "X-Rollbar-Access-Token"@,
    {
        "X-Rollbar-Access-Token"
    }

    /// The request URL for resolve-by-counter; the path embeds the counter.
    pub fn item_by_counter_url(&self, counter: ItemCounter) -> (r: String)
        ensures
            r@ == self.base_url@ + "/item_by_counter/"@ + dec_digits(counter.0 as nat),
    {
        let mut url = self.base_url.clone();
        url.append("/item_by_counter/");
        push_dec_digits(&mut url, counter.0);
        url
    }

    /// The request URL for get-item; the path embeds the identifier.
    pub fn item_url(&self, item_id: ItemId) -> (r: String)
        ensures
            r@ == self.base_url@ + "/item/"@ + dec_digits(item_id.0 as nat) + "/"@,
    {
        let mut url = self.base_url.clone();
        url.append("/item/");
        push_dec_digits(&mut url, item_id.0);
        url.append("/");
        url
    }

    /// The request URL for get-latest-instance: one instance, first page,
    /// ordered most-recent-first by the service.
    pub fn latest_instance_url(&self, item_id: ItemId) -> (r: String)
        ensures
            r@ == self.base_url@ + "/item/"@ + dec_digits(item_id.0 as nat)
                + "/instances?per_page=1"@,
    {
        let mut url = self.base_url.clone();
        url.append("/item/");
        push_dec_digits(&mut url, item_id.0);
        url.append("/instances?per_page=1");
        url
    }

    /// Resolve a counter into the service-internal item identifier, from
    /// the outcome of fetching `item_by_counter_url`.  The payload may be
    /// a full item record or a redirect stub; the richer shape is matched
    /// first, and whichever matched yields its identifier uniformly.
    pub fn resolve_item_id_by_counter(&self, counter: ItemCounter, outcome: FetchOutcome) -> (r:
        Result<ItemId, ApiError>)
        ensures
            operation_failure_post(outcome, Op::ItemByCounter, r),
            outcome_payload(outcome) matches Some(p) ==> r == (match spec_item_id_of(p) {
                Some(id) => Ok::<ItemId, ApiError>(id),
                None => Err::<ItemId, ApiError>(ApiError::Decode { op: Op::ItemByCounter }),
            }),
    {
        let payload = match decode_response(outcome, Op::ItemByCounter) {
            Ok(p) => p,
            Err(e) => {
                return Err(e);
            },
        };
        match item_id_from_payload(&payload) {
            Some(id) => Ok(id),
            None => Err(ApiError::Decode { op: Op::ItemByCounter }),
        }
    }

    /// Fetch the full item record, from the outcome of fetching
    /// `item_url`.  The payload has a single shape: the full record.
    pub fn get_item(&self, item_id: ItemId, outcome: FetchOutcome) -> (r: Result<Item, ApiError>)
        ensures
            operation_failure_post(outcome, Op::Item, r),
            outcome_payload(outcome) matches Some(p) ==> r == (match spec_item_of(p) {
                Some(item) => Ok::<Item, ApiError>(item),
                None => Err::<Item, ApiError>(ApiError::Decode { op: Op::Item }),
            }),
    {
        let payload = match decode_response(outcome, Op::Item) {
            Ok(p) => p,
            Err(e) => {
                return Err(e);
            },
        };
        match item_from_payload(&payload) {
            Some(item) => Ok(item),
            None => Err(ApiError::Decode { op: Op::Item }),
        }
    }

    /// Fetch the most recent recorded occurrence of an item, or an
    /// explicit "none" when it has no occurrences, from the outcome of
    /// fetching `latest_instance_url`.  Both list shapes normalize alike.
    pub fn get_latest_instance(&self, item_id: ItemId, outcome: FetchOutcome) -> (r: Result<
        Option<ItemInstance>,
        ApiError,
    >)
        ensures
            operation_failure_post(outcome, Op::ItemInstances, r),
            outcome_payload(outcome) matches Some(p) ==> r == (match spec_latest_of(p) {
                Some(latest) => Ok::<Option<ItemInstance>, ApiError>(latest),
                None => Err::<Option<ItemInstance>, ApiError>(
                    ApiError::Decode { op: Op::ItemInstances },
                ),
            }),
    {
        let payload = match decode_response(outcome, Op::ItemInstances) {
            Ok(p) => p,
            Err(e) => {
                return Err(e);
            },
        };
        match latest_instance_from_payload(payload) {
            Some(latest) => Ok(latest),
            None => Err(ApiError::Decode { op: Op::ItemInstances }),
        }
    }
}

} // verus!
