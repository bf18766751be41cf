use vstd::prelude::*;
use vstd::string::*;

verus! {

#[verifier::external_type_specification]
#[verifier::external_body]
pub struct ExJsonValue(serde_json::Value);

#[verifier::external_type_specification]
#[verifier::external_body]
pub struct ExJsonError(serde_json::Error);

/// A JSON value as plain data. Numbers are kept only as far as the
/// configuration reads them: as a `u64`, or `None` for any other number.
#[derive(Debug)]
pub enum Json {
    Null,
    Bool(bool),
    Number(Option<u64>),
    Text(String),
    Array(Vec<Json>),
    Object(Vec<(String, Json)>),
}

/// The values that the text holds when it is a JSON array: it depends on the
/// text alone.
pub uninterp spec fn parsed_json(text: Seq<char>) -> Option<Seq<Json>>;

/// Relies on `serde_json::from_str`, reading the text as an array of
/// `serde_json::Value`; each value is copied into `Json` by `json_of`.
#[verifier::external_body]
pub(crate) fn parse_json_list(text: &str) -> (r: Result<Vec<Json>, serde_json::Error>)
    ensures
        match parsed_json(text@) {
            None => r is Err,
            Some(values) => r matches Ok(v) && v@ == values,
        },
{
    let values: Vec<serde_json::Value> = serde_json::from_str(text)?;
    Ok(values.iter().map(json_of).collect())
}

/// Relies on the variants of `serde_json::Value` and on `Number::as_u64`:
/// copies a value variant for variant, the members of an object in the
/// order that its map yields them.
#[verifier::external_body]
fn json_of(v: &serde_json::Value) -> Json {
    match v {
        serde_json::Value::Null => Json::Null,
        serde_json::Value::Bool(b) => Json::Bool(*b),
        serde_json::Value::Number(n) => Json::Number(n.as_u64()),
        serde_json::Value::String(s) => Json::Text(s.clone()),
        serde_json::Value::Array(a) => Json::Array(a.iter().map(json_of).collect()),
        serde_json::Value::Object(m) => Json::Object(
            m.iter().map(|(k, x)| (k.clone(), json_of(x))).collect(),
        ),
    }
}

/// The value under `key` among the members of an object: the first member
/// with that key.
pub open spec fn member_of(fields: Seq<(String, Json)>, key: Seq<char>) -> Option<Json>
    decreases fields.len(),
{
    if fields.len() == 0 {
        None
    } else if fields[0].0@ == key {
        Some(fields[0].1)
    } else {
        member_of(fields.drop_first(), key)
    }
}

/// The member of `v` under `key`, when `v` is an object that has one.
pub open spec fn json_member(v: Json, key: Seq<char>) -> Option<Json> {
    match v {
        Json::Object(fields) => member_of(fields@, key),
        _ => None,
    }
}

/// The member under `key` when it is a string.
pub open spec fn text_field(v: Json, key: Seq<char>) -> Option<String> {
    match json_member(v, key) {
        Some(Json::Text(s)) => Some(s),
        _ => None,
    }
}

/// The member under `key` when it is a number that fits a `u64`.
pub open spec fn number_field(v: Json, key: Seq<char>) -> Option<u64> {
    match json_member(v, key) {
        Some(Json::Number(n)) => n,
        _ => None,
    }
}

/// The items of the member under `key` when it is an array.
pub open spec fn list_field(v: Json, key: Seq<char>) -> Option<Seq<Json>> {
    match json_member(v, key) {
        Some(Json::Array(items)) => Some(items@),
        _ => None,
    }
}

/// The member of `v` under `key`.
pub fn member<'a>(v: &'a Json, key: &str) -> (r: Option<&'a Json>)
    ensures
        match json_member(*v, key@) {
            None => r is None,
            Some(m) => r matches Some(x) && *x == m,
        },
{
    match v {
        Json::Object(fields) => {
            let mut k: usize = 0;
            assert(fields@.subrange(0, fields@.len() as int) =~= fields@);
            while k < fields.len()
                invariant
                    k <= fields@.len(),
                    json_member(*v, key@) == member_of(fields@, key@),
                    member_of(fields@, key@) == member_of(fields@.subrange(k as int, fields@.len() as int), key@),
                decreases fields@.len() - k,
            {
                let ghost rest = fields@.subrange(k as int, fields@.len() as int);
                assert(rest.drop_first() =~= fields@.subrange(k + 1, fields@.len() as int));
                assert(rest[0] == fields@[k as int]);
                if same_key(&fields[k].0, key) {
                    return Some(&fields[k].1);
                }
                k += 1;
            }
            assert(fields@.subrange(k as int, fields@.len() as int).len() == 0);
            None
        },
        _ => None,
    }
}

fn same_key(name: &String, key: &str) -> (r: bool)
    ensures
        r == (name@ == key@),
{
    let k = String::from_str(key);
    *name == k
}

/// The member under `key` when it is a string.
pub fn text_member(v: &Json, key: &str) -> (r: Option<String>)
    ensures
        r == text_field(*v, key@),
{
    match member(v, key) {
        Some(Json::Text(s)) => Some(s.clone()),
        _ => None,
    }
}

/// The member under `key` when it is a number that fits a `u64`.
pub fn number_member(v: &Json, key: &str) -> (r: Option<u64>)
    ensures
        r == number_field(*v, key@),
{
    match member(v, key) {
        Some(Json::Number(n)) => *n,
        _ => None,
    }
}

/// The items of the member under `key` when it is an array.
pub fn list_member<'a>(v: &'a Json, key: &str) -> (r: Option<&'a Vec<Json>>)
    ensures
        match list_field(*v, key@) {
            None => r is None,
            Some(items) => r matches Some(a) && a@ == items,
        },
{
    match member(v, key) {
        Some(Json::Array(items)) => Some(items),
        _ => None,
    }
}

} // verus!
