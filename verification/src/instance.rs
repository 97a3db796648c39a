use vstd::prelude::*;
use crate::json::{JsonValue, spec_field, get_field, find_field};
use crate::item::{req_u64, opt_u64};

verus! {

/// One recorded occurrence of an item.  The two free-form payload fields
/// are mutually exclusive in practice (the service sends one or the other
/// depending on its version); both are carried through uninterpreted.
#[derive(Debug, PartialEq)]
pub struct ItemInstance {
    pub id: u64,
    pub timestamp: Option<u64>,
    pub body: Option<JsonValue>,
    pub data: Option<JsonValue>,
}

/// A free-form field: absent and JSON `null` both decode to an explicit
/// `None`; any other value is kept whole, never inspected.
pub open spec fn payload_value(f: Option<JsonValue>) -> Option<JsonValue> {
    match f {
        None => None,
        Some(JsonValue::Null) => None,
        Some(x) => Some(x),
    }
}

/// The occurrence payload shape: an object with an integer `id`, an
/// optional integer `timestamp`, and free-form `body` and `data`.
pub open spec fn spec_instance_of(v: JsonValue) -> Option<ItemInstance> {
    match v {
        JsonValue::Object(fields) => match (
            req_u64(spec_field(fields@, "id"@)),
            opt_u64(spec_field(fields@, "timestamp"@)),
        ) {
            (Some(id), Some(timestamp)) => Some(
                ItemInstance {
                    id,
                    timestamp,
                    body: payload_value(spec_field(fields@, "body"@)),
                    data: payload_value(spec_field(fields@, "data"@)),
                },
            ),
            _ => None,
        },
        _ => None,
    }
}

/// The two list shapes a get-latest-instance payload may take: a bare
/// ordered list, or an object wrapping the list under `instances`.
pub open spec fn spec_instances_of(payload: JsonValue) -> Option<Seq<JsonValue>> {
    match payload {
        JsonValue::Array(items) => Some(items@),
        JsonValue::Object(fields) => match spec_field(fields@, "instances"@) {
            Some(JsonValue::Array(items)) => Some(items@),
            _ => None,
        },
        _ => None,
    }
}

pub open spec fn all_instances_valid(items: Seq<JsonValue>) -> bool {
    forall|i: int| 0 <= i < items.len() ==> #[trigger] spec_instance_of(items[i]) is Some
}

/// Normalization for get-latest-instance: unwrap whichever list shape
/// matched, require every element to be a valid occurrence, and take the
/// last element of the list — the single place where position in the list
/// is interpreted.  An empty list is a valid "none", not a failure.
pub open spec fn spec_latest_of(payload: JsonValue) -> Option<Option<ItemInstance>> {
    match spec_instances_of(payload) {
        None => None,
        Some(items) => if !all_instances_valid(items) {
            None
        } else if items.len() == 0 {
            Some(None)
        } else {
            Some(Some(spec_instance_of(items.last()).unwrap()))
        },
    }
}

/// Whether a payload satisfies the occurrence shape.
pub fn is_instance_payload(v: &JsonValue) -> (r: bool)
    ensures
        r == (spec_instance_of(*v) is Some),
{
    match v {
        JsonValue::Object(fields) => {
            let id_ok: bool = match get_field(fields, "id") {
                Some(JsonValue::UInt(_)) => true,
                _ => false,
            };
            let ts_ok: bool = match get_field(fields, "timestamp") {
                None => true,
                Some(JsonValue::Null) => true,
                Some(JsonValue::UInt(_)) => true,
                _ => false,
            };
            id_ok && ts_ok
        },
        _ => false,
    }
}

/// Decode one occurrence payload.
pub fn instance_from_payload(v: JsonValue) -> (r: Option<ItemInstance>)
    ensures
        r == spec_instance_of(v),
{
    let fields: Vec<(String, JsonValue)> = match v {
        JsonValue::Object(fields) => fields,
        _ => {
            return None;
        },
    };
    let id: u64 = match get_field(&fields, "id") {
        Some(JsonValue::UInt(u)) => *u,
        _ => {
            return None;
        },
    };
    let timestamp: Option<u64> = match get_field(&fields, "timestamp") {
        None => None,
        Some(JsonValue::Null) => None,
        Some(JsonValue::UInt(u)) => Some(*u),
        _ => {
            return None;
        },
    };
    let ghost whole = fields@;
    let mut fields = fields;
    let mut raw_body: Option<JsonValue> = None;
    let mut raw_data: Option<JsonValue> = None;
    let body_key: String = "body".to_owned();
    let data_key: String = "data".to_owned();
    proof {
        assert(whole.take(whole.len() as int) =~= whole);
        assert(whole.skip(whole.len() as int).len() == 0);
        reveal_strlit("body");
        reveal_strlit("data");
        assert("body"@ != "data"@) by {
            assert("body"@[0] == 'b');
            assert("data"@[0] == 'd');
        }
    }
    while fields.len() > 0
        invariant
            fields@ == whole.take(fields@.len() as int),
            fields@.len() <= whole.len(),
            body_key@ == "body"@,
            data_key@ == "data"@,
            "body"@ != "data"@,
            raw_body == spec_field(whole.skip(fields@.len() as int), "body"@),
            raw_data == spec_field(whole.skip(fields@.len() as int), "data"@),
        decreases fields@.len(),
    {
        let ghost n = fields@.len() as int;
        let pair = fields.pop().unwrap();
        proof {
            assert(pair == whole[n - 1]);
            assert(fields@ =~= whole.take(n - 1));
            assert(whole.skip(n - 1)[0] == whole[n - 1]);
            assert(whole.skip(n - 1).skip(1) =~= whole.skip(n));
        }
        if pair.0 == body_key {
            raw_body = Some(pair.1);
        } else if pair.0 == data_key {
            raw_data = Some(pair.1);
        }
    }
    proof {
        assert(whole.skip(0) =~= whole);
    }
    let body: Option<JsonValue> = match raw_body {
        Some(JsonValue::Null) => None,
        x => x,
    };
    let data: Option<JsonValue> = match raw_data {
        Some(JsonValue::Null) => None,
        x => x,
    };
    Some(ItemInstance { id, timestamp, body, data })
}

/// Normalize a get-latest-instance payload: unwrap either list shape and
/// return its last element, or an explicit "none" for an empty list.
pub fn latest_instance_from_payload(payload: JsonValue) -> (r: Option<Option<ItemInstance>>)
    ensures
        r == spec_latest_of(payload),
{
    let mut items: Vec<JsonValue> = match payload {
        JsonValue::Array(items) => items,
        JsonValue::Object(fields) => {
            match find_field(&fields, "instances") {
                Some(i) => {
                    let mut fields = fields;
                    let pair = fields.remove(i);
                    match pair.1 {
                        JsonValue::Array(items) => items,
                        _ => {
                            return None;
                        },
                    }
                },
                None => {
                    return None;
                },
            }
        },
        _ => {
            return None;
        },
    };
    assert(spec_instances_of(payload) == Some(items@));
    let n = items.len();
    let mut k: usize = 0;
    while k < n
        invariant
            spec_instances_of(payload) == Some(items@),
            n == items@.len(),
            k <= n,
            forall|j: int| 0 <= j < k ==> #[trigger] spec_instance_of(items@[j]) is Some,
        decreases n - k,
    {
        if !is_instance_payload(&items[k]) {
            proof {
                assert(!(spec_instance_of(items@[k as int]) is Some));
            }
            return None;
        }
        k += 1;
    }
    proof {
        assert(all_instances_valid(items@));
    }
    let ghost gitems = items@;
    match items.pop() {
        None => Some(None),
        Some(last_item) => {
            proof {
                assert(last_item == gitems.last());
                assert(spec_instance_of(last_item) is Some);
            }
            match instance_from_payload(last_item) {
                Some(inst) => Some(Some(inst)),
                None => {
                    proof {
                        assert(false);
                    }
                    None
                },
            }
        },
    }
}

/// Law: a payload that unwraps to an instances list of length zero — in
/// either list shape — normalizes to an explicit "none", not a failure.
pub proof fn lemma_empty_list_is_none(payload: JsonValue)
    requires
        spec_instances_of(payload) matches Some(items) && items.len() == 0,
    ensures
        spec_latest_of(payload) == Some(None::<ItemInstance>),
{
}

/// Law: a bare instances list and the same list wrapped in an object
/// normalize to the same result.
pub proof fn lemma_shapes_normalize_alike(bare: JsonValue, wrapped: JsonValue)
    requires
        bare is Array,
        wrapped matches JsonValue::Object(fields) && spec_field(fields@, "instances"@) == Some(
            bare,
        ),
    ensures
        spec_latest_of(wrapped) == spec_latest_of(bare),
{
}

} // verus!
