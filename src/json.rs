use vstd::prelude::*;

verus! {

/// A JSON value held as plain data. Numbers keep their text; an object keeps its
/// members as key and value pairs, each key once.
#[derive(Debug, PartialEq)]
pub enum Json {
    Null,
    Bool(bool),
    Number(String),
    Str(String),
    Array(Vec<Json>),
    Object(Vec<(String, Json)>),
}

#[verifier::external_type_specification]
#[verifier::external_body]
pub struct ExValue(serde_json::Value);

#[verifier::external_type_specification]
#[verifier::external_body]
pub struct ExJsonError(serde_json::Error);

/// What serde_json::from_str reads from a text, in the model above; `None` when the
/// text is not one JSON value.
pub uninterp spec fn json_of(text: Seq<char>) -> Option<Json>;

/// Turns a serde_json value into the model, variant for variant.
#[verifier::external_body]
fn from_value(v: serde_json::Value) -> Json {
    match v {
        serde_json::Value::Null => Json::Null,
        serde_json::Value::Bool(b) => Json::Bool(b),
        serde_json::Value::Number(n) => Json::Number(n.to_string()),
        serde_json::Value::String(s) => Json::Str(s),
        serde_json::Value::Array(a) => Json::Array(a.into_iter().map(from_value).collect()),
        serde_json::Value::Object(m) => Json::Object(m.into_iter().map(|(k, x)| (k, from_value(x))).collect()),
    }
}

/// Relies on serde_json::from_str, reading a whole text as one JSON value; the result
/// depends on the text alone.
#[verifier::external_body]
pub(crate) fn parse_json(text: &str) -> (r: Result<Json, serde_json::Error>)
    ensures
        r is Ok <==> json_of(text@) is Some,
        r matches Ok(j) ==> json_of(text@) == Some(j),
{
    match serde_json::from_str::<serde_json::Value>(text) {
        Ok(v) => Ok(from_value(v)),
        Err(e) => Err(e),
    }
}

/// Relies on serde_json::Error's Display: a message that says where parsing stopped.
#[verifier::external_body]
pub(crate) fn json_error_text(e: &serde_json::Error) -> (r: String) {
    e.to_string()
}

/// The value under `key` among members `i` and after.
pub open spec fn member_from(es: Seq<(String, Json)>, key: Seq<char>, i: int) -> Option<Json>
    decreases es.len() - i,
{
    if i < 0 || i >= es.len() {
        None
    } else if es[i].0@ == key {
        Some(es[i].1)
    } else {
        member_from(es, key, i + 1)
    }
}

/// The member of an object under `key`; `None` for a missing key or a non-object.
pub open spec fn member(j: Json, key: Seq<char>) -> Option<Json> {
    match j {
        Json::Object(es) => member_from(es@, key, 0),
        _ => None,
    }
}

/// The strings of a JSON array, when every item is a string.
pub open spec fn str_items(items: Seq<Json>) -> Option<Seq<String>> {
    if forall|i: int| 0 <= i < items.len() ==> #[trigger] items[i] is Str {
        Some(Seq::new(items.len(), |i: int| items[i]->Str_0))
    } else {
        None
    }
}

/// The identifier texts of an envelope `{"data": {<field>: [str, ...]}}`.
pub open spec fn id_strings(j: Json, field: Seq<char>) -> Option<Seq<String>> {
    match member(j, "data"@) {
        Some(d) => match member(d, field) {
            Some(Json::Array(items)) => str_items(items@),
            _ => None,
        },
        None => None,
    }
}

/// Takes the member under `key` out of a JSON object.
pub fn take_member(j: Json, key: &str) -> (r: Option<Json>)
    ensures
        r == member(j, key@),
{
    match j {
        Json::Object(mut es) => {
            let ghost es0 = es@;
            assert(member(j, key@) == member_from(es0, key@, 0));
            let k = key.to_owned();
            let mut i: usize = 0;
            while i < es.len()
                invariant
                    es@ == es0,
                    i <= es0.len(),
                    k@ == key@,
                    member(j, key@) == member_from(es0, key@, 0),
                    member_from(es0, key@, 0) == member_from(es0, key@, i as int),
                decreases es0.len() - i,
            {
                let same = es[i].0 == k;
                if same {
                    let entry = es.remove(i);
                    return Some(entry.1);
                }
                i = i + 1;
            }
            None
        },
        _ => None,
    }
}

/// The strings of a JSON array, when every item is a string.
pub fn string_items(items: Vec<Json>) -> (r: Option<Vec<String>>)
    ensures
        r matches Some(v) ==> str_items(items@) == Some(v@),
        r is None ==> str_items(items@) is None,
{
    let mut out: Vec<String> = Vec::new();
    let mut i: usize = 0;
    while i < items.len()
        invariant
            i <= items@.len(),
            out@.len() == i,
            forall|j: int| 0 <= j < i ==> #[trigger] items@[j] is Str,
            forall|j: int| 0 <= j < i ==> #[trigger] out@[j] == items@[j]->Str_0,
        decreases items@.len() - i,
    {
        match &items[i] {
            Json::Str(s) => out.push(s.clone()),
            _ => return None,
        }
        i = i + 1;
    }
    assert(out@ =~= Seq::new(items@.len(), |j: int| items@[j]->Str_0));
    Some(out)
}

/// The identifier texts of an envelope `{"data": {<field>: [str, ...]}}`.
pub fn envelope_id_strings(j: Json, field: &str) -> (r: Option<Vec<String>>)
    ensures
        r matches Some(v) ==> id_strings(j, field@) == Some(v@),
        r is None ==> id_strings(j, field@) is None,
{
    proof { reveal_strlit("data"); }
    let d = match take_member(j, "data") {
        Some(d) => d,
        None => return None,
    };
    match take_member(d, field) {
        Some(Json::Array(items)) => string_items(items),
        _ => None,
    }
}

} // verus!
