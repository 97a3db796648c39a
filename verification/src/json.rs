use vstd::prelude::*;

verus! {

/// A parsed JSON document, with numbers restricted to what the wire
/// protocol actually carries: every numeric field this library reads is a
/// nonnegative integer, so any other number is kept only as a marker
/// variant.  Object fields keep their order of appearance; lookups take
/// the first binding of a key.
#[derive(Debug, PartialEq)]
pub enum JsonValue {
    Null,
    Bool(bool),
    UInt(u64),
    OtherNumber,
    Str(String),
    Array(Vec<JsonValue>),
    Object(Vec<(String, JsonValue)>),
}

/// The first value bound to `key` in an object's field list, if any.
pub open spec fn spec_field(fields: Seq<(String, JsonValue)>, key: Seq<char>) -> Option<JsonValue>
    decreases fields.len(),
{
    if fields.len() == 0 {
        None
    } else if fields[0].0@ == key {
        Some(fields[0].1)
    } else {
        spec_field(fields.skip(1), key)
    }
}

/// If the first `i` fields do not bind `key`, the lookup is decided by the rest.
pub proof fn lemma_spec_field_skip(fields: Seq<(String, JsonValue)>, key: Seq<char>, i: int)
    requires
        0 <= i <= fields.len(),
        forall|j: int| 0 <= j < i ==> #[trigger] fields[j].0@ != key,
    ensures
        spec_field(fields, key) == spec_field(fields.skip(i), key),
    decreases i,
{
    if i > 0 {
        assert(fields.skip(1).len() == fields.len() - 1);
        assert(forall|j: int| 0 <= j < i - 1 ==> #[trigger] fields.skip(1)[j].0@ != key);
        lemma_spec_field_skip(fields.skip(1), key, i - 1);
        assert(fields.skip(1).skip(i - 1) =~= fields.skip(i));
    } else {
        assert(fields.skip(0) =~= fields);
    }
}

/// Index of the first field bound to `key`, together with what that
/// means for `spec_field`.
pub(crate) fn find_field(fields: &Vec<(String, JsonValue)>, key: &str) -> (r: Option<usize>)
    ensures
        match r {
            Some(i) => {
                &&& i < fields@.len()
                &&& fields@[i as int].0@ == key@
                &&& forall|j: int| 0 <= j < i ==> #[trigger] fields@[j].0@ != key@
                &&& spec_field(fields@, key@) == Some(fields@[i as int].1)
            },
            None => spec_field(fields@, key@) is None,
        },
{
    let key_string: String = key.to_owned();
    let n = fields.len();
    let mut i: usize = 0;
    while i < n
        invariant
            n == fields@.len(),
            i <= n,
            key_string@ == key@,
            forall|j: int| 0 <= j < i ==> #[trigger] fields@[j].0@ != key@,
        decreases n - i,
    {
        let pair = &fields[i];
        if pair.0 == key_string {
            proof {
                lemma_spec_field_skip(fields@, key@, i as int);
                assert(fields@.skip(i as int)[0] == fields@[i as int]);
            }
            return Some(i);
        }
        i += 1;
    }
    proof {
        lemma_spec_field_skip(fields@, key@, n as int);
        assert(fields@.skip(n as int).len() == 0);
    }
    None
}

/// Borrow the first value bound to `key` in an object's field list.
pub(crate) fn get_field<'a>(fields: &'a Vec<(String, JsonValue)>, key: &str) -> (r: Option<
    &'a JsonValue,
>)
    ensures
        match r {
            Some(v) => spec_field(fields@, key@) == Some(*v),
            None => spec_field(fields@, key@) is None,
        },
{
    match find_field(fields, key) {
        Some(i) => Some(&fields[i].1),
        None => None,
    }
}

/// What `parse_json` returns for a given document text.  JSON parsing is
/// deterministic, so the result is a function of the text alone; its full
/// definition is serde_json's and is not restated here.
pub uninterp spec fn parsed_json(s: Seq<char>) -> Option<JsonValue>;

/// Relies on serde_json::from_str: parses a JSON document, deterministically
/// in the text alone, returning an error exactly when the text is not valid
/// JSON.  The parsed tree is converted field for field by `json_of_value`.
#[verifier::external_body]
pub(crate) fn parse_json(s: &str) -> (r: Option<JsonValue>)
    ensures
        r == parsed_json(s@),
{
    match serde_json::from_str::<serde_json::Value>(s) {
        Ok(v) => Some(json_of_value(&v)),
        Err(_) => None,
    }
}

#[verifier::external_type_specification]
#[verifier::external_body]
pub struct ExValue(serde_json::Value);

/// Relies on serde_json::Value: each variant is carried over one for one,
/// a number becoming `UInt` exactly when it is a nonnegative integer that
/// fits in 64 bits (serde_json's `as_u64`).
#[verifier::external_body]
fn json_of_value(v: &serde_json::Value) -> JsonValue {
    match v {
        serde_json::Value::Null => JsonValue::Null,
        serde_json::Value::Bool(b) => JsonValue::Bool(*b),
        serde_json::Value::Number(n) => match n.as_u64() {
            Some(u) => JsonValue::UInt(u),
            None => JsonValue::OtherNumber,
        },
        serde_json::Value::String(s) => JsonValue::Str(s.clone()),
        serde_json::Value::Array(a) => JsonValue::Array(a.iter().map(json_of_value).collect()),
        serde_json::Value::Object(m) => JsonValue::Object(
            m.iter().map(|(k, x)| (k.clone(), json_of_value(x))).collect(),
        ),
    }
}

} // verus!
