use vstd::prelude::*;
use crate::json::{JsonValue, spec_field, get_field};

verus! {

/// The user-facing, per-project sequential number of a tracked item.
#[derive(Debug, Clone, Copy, PartialEq, Eq, Structural)]
pub struct ItemCounter(pub u64);

/// The service-internal numeric identifier of a tracked item.
#[derive(Debug, Clone, Copy, PartialEq, Eq, Structural)]
pub struct ItemId(pub u64);

/// A tracked item, as one immutable snapshot.  The optional fields stay
/// `None` when the payload did not carry them, never a zero or empty
/// stand-in.
#[derive(Debug, PartialEq)]
pub struct Item {
    pub id: u64,
    pub project_id: u64,
    pub counter: u64,
    pub title: String,
    pub status: String,
    pub environment: Option<String>,
    pub total_occurrences: Option<u64>,
}

/// A required integer field: present exactly when the value is a
/// nonnegative 64-bit integer.
pub open spec fn req_u64(f: Option<JsonValue>) -> Option<u64> {
    match f {
        Some(JsonValue::UInt(u)) => Some(u),
        _ => None,
    }
}

/// A required string field.
pub open spec fn req_string(f: Option<JsonValue>) -> Option<String> {
    match f {
        Some(JsonValue::Str(s)) => Some(s),
        _ => None,
    }
}

/// An optional string field: an absent key and a JSON `null` both decode
/// to an explicit `None`; anything but a string is a shape mismatch.
pub open spec fn opt_string(f: Option<JsonValue>) -> Option<Option<String>> {
    match f {
        None => Some(None),
        Some(JsonValue::Null) => Some(None),
        Some(JsonValue::Str(s)) => Some(Some(s)),
        Some(_) => None,
    }
}

/// An optional integer field, with the same policy as `opt_string`.
pub open spec fn opt_u64(f: Option<JsonValue>) -> Option<Option<u64>> {
    match f {
        None => Some(None),
        Some(JsonValue::Null) => Some(None),
        Some(JsonValue::UInt(u)) => Some(Some(u)),
        Some(_) => None,
    }
}

/// The full-`Item` payload shape: an object carrying every required field
/// well-typed, and the optional fields absent, null, or well-typed.
pub open spec fn spec_item_of(v: JsonValue) -> Option<Item> {
    match v {
        JsonValue::Object(fields) => match (
            req_u64(spec_field(fields@, "id"@)),
            req_u64(spec_field(fields@, "project_id"@)),
            req_u64(spec_field(fields@, "counter"@)),
            req_string(spec_field(fields@, "title"@)),
            req_string(spec_field(fields@, "status"@)),
            opt_string(spec_field(fields@, "environment"@)),
            opt_u64(spec_field(fields@, "total_occurrences"@)),
        ) {
            (
                Some(id),
                Some(project_id),
                Some(counter),
                Some(title),
                Some(status),
                Some(environment),
                Some(total_occurrences),
            ) => Some(
                Item { id, project_id, counter, title, status, environment, total_occurrences },
            ),
            _ => None,
        },
        _ => None,
    }
}

/// The redirect-stub payload shape: an object whose `itemId` field is an
/// integer.  Nothing else of the object is read.
pub open spec fn spec_redirect_of(v: JsonValue) -> Option<u64> {
    match v {
        JsonValue::Object(fields) => req_u64(spec_field(fields@, "itemId"@)),
        _ => None,
    }
}

/// Normalization for resolve-by-counter: the richer full-`Item` shape is
/// matched first and yields its `id`; only a payload that does not satisfy
/// it may match as a redirect stub and yield the stub's identifier.  This
/// precedence is a behavioral contract of the operation.
pub open spec fn spec_item_id_of(v: JsonValue) -> Option<ItemId> {
    match spec_item_of(v) {
        Some(item) => Some(ItemId(item.id)),
        None => match spec_redirect_of(v) {
            Some(u) => Some(ItemId(u)),
            None => None,
        },
    }
}

/// Decode a payload as a full `Item` record.
pub fn item_from_payload(v: &JsonValue) -> (r: Option<Item>)
    ensures
        r == spec_item_of(*v),
{
    let fields: &Vec<(String, JsonValue)> = match v {
        JsonValue::Object(fields) => fields,
        _ => {
            return None;
        },
    };
    let id: u64 = match get_field(fields, "id") {
        Some(JsonValue::UInt(u)) => *u,
        _ => {
            return None;
        },
    };
    let project_id: u64 = match get_field(fields, "project_id") {
        Some(JsonValue::UInt(u)) => *u,
        _ => {
            return None;
        },
    };
    let counter: u64 = match get_field(fields, "counter") {
        Some(JsonValue::UInt(u)) => *u,
        _ => {
            return None;
        },
    };
    let title: String = match get_field(fields, "title") {
        Some(JsonValue::Str(s)) => s.clone(),
        _ => {
            return None;
        },
    };
    let status: String = match get_field(fields, "status") {
        Some(JsonValue::Str(s)) => s.clone(),
        _ => {
            return None;
        },
    };
    let environment: Option<String> = match get_field(fields, "environment") {
        None => None,
        Some(JsonValue::Null) => None,
        Some(JsonValue::Str(s)) => Some(s.clone()),
        Some(_) => {
            return None;
        },
    };
    let total_occurrences: Option<u64> = match get_field(fields, "total_occurrences") {
        None => None,
        Some(JsonValue::Null) => None,
        Some(JsonValue::UInt(u)) => Some(*u),
        Some(_) => {
            return None;
        },
    };
    Some(Item { id, project_id, counter, title, status, environment, total_occurrences })
}

/// Normalize a resolve-by-counter payload into the item's identifier,
/// trying the full-`Item` shape before the redirect stub.
pub fn item_id_from_payload(v: &JsonValue) -> (r: Option<ItemId>)
    ensures
        r == spec_item_id_of(*v),
{
    match item_from_payload(v) {
        Some(item) => Some(ItemId(item.id)),
        None => {
            let fields: &Vec<(String, JsonValue)> = match v {
                JsonValue::Object(fields) => fields,
                _ => {
                    return None;
                },
            };
            match get_field(fields, "itemId") {
                Some(JsonValue::UInt(u)) => Some(ItemId(*u)),
                _ => None,
            }
        },
    }
}

/// Law: a payload that satisfies the full-`Item` shape resolves to that
/// record's own `id`, never to a redirect identifier.
pub proof fn lemma_full_item_resolves_to_its_id(v: JsonValue)
    requires
        spec_item_of(v) is Some,
    ensures
        spec_item_id_of(v) == Some(ItemId(spec_item_of(v).unwrap().id)),
{
}

/// Law: a payload that does not satisfy the full-`Item` shape but carries
/// an integer `itemId` resolves to exactly that identifier.
pub proof fn lemma_redirect_resolves_to_stub_id(v: JsonValue, stub_id: u64)
    requires
        spec_item_of(v) is None,
        spec_redirect_of(v) == Some(stub_id),
    ensures
        spec_item_id_of(v) == Some(ItemId(stub_id)),
{
}

/// Law: an `environment` key absent from an otherwise valid `Item` payload
/// decodes to the explicit absent value, distinguishable from a present
/// empty string, which decodes to a present value with empty text.
pub proof fn lemma_absent_environment_is_none(v: JsonValue)
    requires
        v is Object,
        spec_item_of(v) is Some,
    ensures
        spec_field(v->Object_0@, "environment"@) is None ==> spec_item_of(
            v,
        ).unwrap().environment is None,
        spec_field(v->Object_0@, "environment"@) matches Some(JsonValue::Str(s)) ==> spec_item_of(
            v,
        ).unwrap().environment == Some(s),
{
}

} // verus!
