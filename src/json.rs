use vstd::prelude::*;

verus! {

/// A JSON document as the library reads and writes it.
///
/// A number is kept only as far as the logic needs it: its value where it is
/// an integer that fits in `i64`, `None` otherwise.
#[derive(Debug, PartialEq)]
pub enum Json {
    Null,
    Bool(bool),
    Number(Option<i64>),
    Str(String),
    Array(Vec<Json>),
    Object(Vec<(String, Json)>),
}

#[verifier::external_type_specification]
#[verifier::external_body]
pub struct ExValue(serde_json::Value);

/// The document that a byte string parses to, if it is JSON.
pub uninterp spec fn json_parse(b: Seq<u8>) -> Option<Json>;

/// The JSON text written for a document.
pub uninterp spec fn json_text(j: Json) -> Seq<char>;

/// Converts serde_json's document into the library's, one node for one node.
#[verifier::external_body]
fn from_value(v: serde_json::Value) -> Json {
    match v {
        serde_json::Value::Null => Json::Null,
        serde_json::Value::Bool(b) => Json::Bool(b),
        serde_json::Value::Number(n) => Json::Number(n.as_i64()),
        serde_json::Value::String(s) => Json::Str(s),
        serde_json::Value::Array(a) => Json::Array(a.into_iter().map(from_value).collect()),
        serde_json::Value::Object(m) => Json::Object(
            m.into_iter().map(|(k, x)| (k, from_value(x))).collect(),
        ),
    }
}

/// Converts the library's document into serde_json's, one node for one node.
#[verifier::external_body]
fn to_value(j: &Json) -> serde_json::Value {
    match j {
        Json::Null | Json::Number(None) => serde_json::Value::Null,
        Json::Bool(b) => serde_json::Value::Bool(*b),
        Json::Number(Some(n)) => serde_json::Value::from(*n),
        Json::Str(s) => serde_json::Value::String(s.clone()),
        Json::Array(a) => serde_json::Value::Array(a.iter().map(to_value).collect()),
        Json::Object(m) => serde_json::Value::Object(
            m.iter().map(|(k, x)| (k.clone(), to_value(x))).collect(),
        ),
    }
}

/// Relies on serde_json::from_slice: whether the bytes are a JSON document,
/// and which, depends on the bytes alone.
#[verifier::external_body]
pub(crate) fn parse(b: &[u8]) -> (r: Option<Json>)
    ensures
        r == json_parse(b@),
{
    match serde_json::from_slice::<serde_json::Value>(b) {
        Ok(v) => Some(from_value(v)),
        Err(_) => None,
    }
}

/// Relies on serde_json::Value's to_string: the text depends on the document alone.
#[verifier::external_body]
pub(crate) fn to_text(j: &Json) -> (r: String)
    ensures
        r@ == json_text(*j),
{
    to_value(j).to_string()
}

/// The value of the first field named `key`, if any.
pub open spec fn field(fields: Seq<(String, Json)>, key: Seq<char>) -> Option<Json>
    decreases fields.len(),
{
    if fields.len() == 0 {
        None
    } else if fields[0].0@ == key {
        Some(fields[0].1)
    } else {
        field(fields.drop_first(), key)
    }
}

/// The member `key` of a document, where the document is an object that has it.
pub open spec fn member(j: Json, key: Seq<char>) -> Option<Json> {
    match j {
        Json::Object(fields) => field(fields@, key),
        _ => None,
    }
}

/// Looks up the member `key` of an object.
pub fn get<'a>(j: &'a Json, key: &String) -> (r: Option<&'a Json>)
    ensures
        match r {
            Some(v) => member(*j, key@) == Some(*v),
            None => member(*j, key@).is_none(),
        },
{
    match j {
        Json::Object(fields) => {
            let mut i: usize = 0;
            assert(fields@.subrange(0, fields@.len() as int) =~= fields@);
            while i < fields.len()
                invariant
                    i <= fields@.len(),
                    member(*j, key@) == field(fields@, key@),
                    field(fields@, key@) == field(fields@.subrange(i as int, fields@.len() as int), key@),
                decreases fields.len() - i,
            {
                assert(fields@.subrange(i as int, fields@.len() as int).drop_first() =~= fields@.subrange(
                    i + 1,
                    fields@.len() as int,
                ));
                let same = fields[i].0 == *key;
                if same {
                    let ghost rest = fields@.subrange(i as int, fields@.len() as int);
                    assert(rest[0] == fields@[i as int]);
                    assert(field(rest, key@) == Some(fields@[i as int].1));
                    return Some(&fields[i].1);
                }
                i = i + 1;
            }
            None
        },
        _ => None,
    }
}

} // verus!
