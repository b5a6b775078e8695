use vstd::prelude::*;

verus! {

#[verifier::external_type_specification]
#[verifier::external_body]
pub struct ExValue(serde_json::Value);

/// A JSON document as plain values. Numbers keep their text; an object keeps
/// its members in the parser's order, each key once.
#[derive(Debug)]
pub enum Json {
    Null,
    Bool(bool),
    Number(String),
    Str(String),
    Array(Vec<Json>),
    Object(Vec<(String, Json)>),
}

/// The document that `serde_json` reads from a text, if the text is JSON.
pub uninterp spec fn json_text_value(s: Seq<char>) -> Option<Json>;

/// Relies on `serde_json::from_str::<serde_json::Value>`: it returns `Ok` exactly
/// when the text is JSON, and the document depends on the text alone. The error
/// is kept as the parser's message.
#[verifier::external_body]
pub(crate) fn parse_json(s: &str) -> (r: Result<Json, String>)
    ensures
        r is Ok <==> json_text_value(s@) is Some,
        r is Ok ==> json_text_value(s@) == Some(r->Ok_0),
{
    serde_json::from_str::<serde_json::Value>(s).map(json_tree).map_err(|e| e.to_string())
}

/// Relies on the variants of `serde_json::Value`: moves each one into the
/// variant of `Json` of the same name, numbers by their text.
#[verifier::external_body]
fn json_tree(v: serde_json::Value) -> Json {
    match v {
        serde_json::Value::Null => Json::Null,
        serde_json::Value::Bool(b) => Json::Bool(b),
        serde_json::Value::Number(n) => Json::Number(n.to_string()),
        serde_json::Value::String(s) => Json::Str(s),
        serde_json::Value::Array(a) => Json::Array(a.into_iter().map(json_tree).collect()),
        serde_json::Value::Object(m) => Json::Object(m.into_iter().map(|(k, x)| (k, json_tree(x))).collect()),
    }
}

/// The value of the first member named `key`.
pub open spec fn member(fields: Seq<(String, Json)>, key: Seq<char>) -> Option<Json>
    decreases fields.len(),
{
    if fields.len() == 0 {
        None
    } else if fields[0].0@ == key {
        Some(fields[0].1)
    } else {
        member(fields.drop_first(), key)
    }
}

/// The member `key` of an object; other values have no members.
pub open spec fn get(v: Json, key: Seq<char>) -> Option<Json> {
    match v {
        Json::Object(fields) => member(fields@, key),
        _ => None,
    }
}

/// What reading `v` as a list of strings gives: an array whose items are all strings.
pub open spec fn string_list(v: Json) -> Option<Seq<String>> {
    match v {
        Json::Array(items) => if forall|i: int| 0 <= i < items@.len() ==> items@[i] is Str {
            Some(items@.map_values(|j: Json| j->Str_0))
        } else {
            None
        },
        _ => None,
    }
}

/// What reading `v` as a map from strings to strings gives: an object whose
/// values are all strings.
pub open spec fn string_map(v: Json) -> Option<Seq<(String, String)>> {
    match v {
        Json::Object(fields) => if forall|i: int| 0 <= i < fields@.len() ==> fields@[i].1 is Str {
            Some(fields@.map_values(|p: (String, Json)| (p.0, p.1->Str_0)))
        } else {
            None
        },
        _ => None,
    }
}

impl Json {
    /// The member `key` of an object.
    pub fn get(&self, key: &str) -> (r: Option<&Json>)
        ensures
            r matches Some(x) ==> get(*self, key@) == Some(*x),
            r is None ==> get(*self, key@) is None,
    {
        match self {
            Json::Object(fields) => {
                let k = key.to_owned();
                let mut i: usize = 0;
                assert(fields@.subrange(0, fields@.len() as int) =~= fields@);
                while i < fields.len()
                    invariant
                        i <= fields@.len(),
                        *self == Json::Object(*fields),
                        k@ == key@,
                        member(fields@, key@) == member(fields@.subrange(i as int, fields@.len() as int), key@),
                    decreases fields.len() - i,
                {
                    let ghost rest = fields@.subrange(i as int, fields@.len() as int);
                    assert(rest.drop_first() =~= fields@.subrange(i + 1, fields@.len() as int));
                    assert(rest[0] == fields@[i as int]);
                    if fields[i].0 == k {
                        return Some(&fields[i].1);
                    }
                    i = i + 1;
                }
                None
            },
            _ => None,
        }
    }
}

/// Reads `v` as a list of strings.
pub fn to_string_list(v: &Json) -> (r: Option<Vec<String>>)
    ensures
        r matches Some(l) ==> string_list(*v) == Some(l@),
        r is None ==> string_list(*v) is None,
{
    match v {
        Json::Array(items) => {
            let mut out: Vec<String> = Vec::new();
            let mut i: usize = 0;
            while i < items.len()
                invariant
                    i <= items@.len(),
                    *v == Json::Array(*items),
                    forall|j: int| 0 <= j < i ==> items@[j] is Str,
                    out@ == items@.subrange(0, i as int).map_values(|j: Json| j->Str_0),
                decreases items.len() - i,
            {
                match &items[i] {
                    Json::Str(s) => out.push(s.clone()),
                    _ => {
                        assert(!(items@[i as int] is Str));
                        return None;
                    },
                }
                assert(items@.subrange(0, i + 1).map_values(|j: Json| j->Str_0)
                    =~= items@.subrange(0, i as int).map_values(|j: Json| j->Str_0).push(items@[i as int]->Str_0));
                i = i + 1;
            }
            assert(items@.subrange(0, items@.len() as int) =~= items@);
            Some(out)
        },
        _ => None,
    }
}

/// Reads `v` as a map from strings to strings, in the object's order.
pub fn to_string_map(v: &Json) -> (r: Option<Vec<(String, String)>>)
    ensures
        r matches Some(m) ==> string_map(*v) == Some(m@),
        r is None ==> string_map(*v) is None,
{
    match v {
        Json::Object(fields) => {
            let mut out: Vec<(String, String)> = Vec::new();
            let mut i: usize = 0;
            while i < fields.len()
                invariant
                    i <= fields@.len(),
                    *v == Json::Object(*fields),
                    forall|j: int| 0 <= j < i ==> fields@[j].1 is Str,
                    out@ == fields@.subrange(0, i as int).map_values(|p: (String, Json)| (p.0, p.1->Str_0)),
                decreases fields.len() - i,
            {
                match &fields[i].1 {
                    Json::Str(s) => out.push((fields[i].0.clone(), s.clone())),
                    _ => {
                        assert(!(fields@[i as int].1 is Str));
                        return None;
                    },
                }
                assert(fields@.subrange(0, i + 1).map_values(|p: (String, Json)| (p.0, p.1->Str_0))
                    =~= fields@.subrange(0, i as int).map_values(|p: (String, Json)| (p.0, p.1->Str_0)).push(
                    (fields@[i as int].0, fields@[i as int].1->Str_0)));
                i = i + 1;
            }
            assert(fields@.subrange(0, fields@.len() as int) =~= fields@);
            Some(out)
        },
        _ => None,
    }
}

} // verus!
